//! Pixel formats and image buffer sizes.
use vstd::prelude::*;

use crate::geometry::Size;

verus! {

/// Pixel format of an image.
#[derive(Debug, Clone, Copy, PartialEq, Eq, Structural, Hash)]
pub enum PixelFormat {
    Luma,
    LumaA,
    Rgb,
    Rgba,
}

impl PixelFormat {
    /// Number of components per pixel: 1, 2, 3 and 4 for luma, luma-alpha, RGB and RGBA.
    pub open spec fn components_spec(self) -> usize {
        match self {
            PixelFormat::Luma => 1,
            PixelFormat::LumaA => 2,
            PixelFormat::Rgb => 3,
            PixelFormat::Rgba => 4,
        }
    }

    /// Gets the number of components per pixel.
    pub fn num_components(self) -> (r: usize)
        ensures
            r == self.components_spec(),
    {
        match self {
            PixelFormat::Luma => 1,
            PixelFormat::LumaA => 2,
            PixelFormat::Rgb => 3,
            PixelFormat::Rgba => 4,
        }
    }
}

/// Pixels hold one component in luma, two in luma with alpha, three in RGB and four in
/// RGBA.
pub proof fn lemma_pixel_components()
    ensures
        PixelFormat::Luma.components_spec() == 1,
        PixelFormat::LumaA.components_spec() == 2,
        PixelFormat::Rgb.components_spec() == 3,
        PixelFormat::Rgba.components_spec() == 4,
{
}

/// The type of each component of an image buffer.
#[derive(Debug, Clone, Copy, PartialEq, Eq, Structural, Hash)]
pub enum ComponentType {
    U8,
    U16,
    U32,
    F32,
}

/// The client-side layout of texture data: component type and components per pixel.
#[derive(Debug, Clone, Copy, PartialEq, Eq, Structural, Hash)]
pub enum TexelLayout {
    U8,
    U8U8,
    U8U8U8,
    U8U8U8U8,
    U16,
    U16U16,
    U16U16U16,
    U16U16U16U16,
    U32,
    U32U32,
    U32U32U32,
    U32U32U32U32,
    F32,
    F32F32,
    F32F32F32,
    F32F32F32F32,
}

impl TexelLayout {
    /// The component type of the layout.
    pub open spec fn component_spec(self) -> ComponentType {
        match self {
            TexelLayout::U8 | TexelLayout::U8U8 | TexelLayout::U8U8U8 | TexelLayout::U8U8U8U8 => ComponentType::U8,
            TexelLayout::U16 | TexelLayout::U16U16 | TexelLayout::U16U16U16
            | TexelLayout::U16U16U16U16 => ComponentType::U16,
            TexelLayout::U32 | TexelLayout::U32U32 | TexelLayout::U32U32U32
            | TexelLayout::U32U32U32U32 => ComponentType::U32,
            _ => ComponentType::F32,
        }
    }

    /// The number of components per pixel of the layout.
    pub open spec fn channels_spec(self) -> usize {
        match self {
            TexelLayout::U8 | TexelLayout::U16 | TexelLayout::U32 | TexelLayout::F32 => 1,
            TexelLayout::U8U8 | TexelLayout::U16U16 | TexelLayout::U32U32 | TexelLayout::F32F32 => 2,
            TexelLayout::U8U8U8 | TexelLayout::U16U16U16 | TexelLayout::U32U32U32
            | TexelLayout::F32F32F32 => 3,
            _ => 4,
        }
    }
}

/// The texture data layout of an image whose components are of type `component` and
/// whose pixels are in `format`.
pub fn texel_layout(component: ComponentType, format: PixelFormat) -> (r: TexelLayout)
    ensures
        r.component_spec() == component,
        r.channels_spec() == format.components_spec(),
{
    match component {
        ComponentType::U8 => match format {
            PixelFormat::Luma => TexelLayout::U8,
            PixelFormat::LumaA => TexelLayout::U8U8,
            PixelFormat::Rgb => TexelLayout::U8U8U8,
            PixelFormat::Rgba => TexelLayout::U8U8U8U8,
        },
        ComponentType::U16 => match format {
            PixelFormat::Luma => TexelLayout::U16,
            PixelFormat::LumaA => TexelLayout::U16U16,
            PixelFormat::Rgb => TexelLayout::U16U16U16,
            PixelFormat::Rgba => TexelLayout::U16U16U16U16,
        },
        ComponentType::U32 => match format {
            PixelFormat::Luma => TexelLayout::U32,
            PixelFormat::LumaA => TexelLayout::U32U32,
            PixelFormat::Rgb => TexelLayout::U32U32U32,
            PixelFormat::Rgba => TexelLayout::U32U32U32U32,
        },
        ComponentType::F32 => match format {
            PixelFormat::Luma => TexelLayout::F32,
            PixelFormat::LumaA => TexelLayout::F32F32,
            PixelFormat::Rgb => TexelLayout::F32F32F32,
            PixelFormat::Rgba => TexelLayout::F32F32F32F32,
        },
    }
}

/// Number of components that an image of `size` pixels in `format` holds.
pub open spec fn data_len_spec(size: Size, format: PixelFormat) -> int {
    size.w * size.h * format.components_spec()
}

/// The length of the buffer of an image of `size` pixels in `format`.
pub fn image_data_len(size: Size, format: PixelFormat) -> (r: usize)
    requires
        data_len_spec(size, format) <= usize::MAX,
    ensures
        r == data_len_spec(size, format),
{
    let c = format.num_components();
    proof {
        assert(0 <= size.w * size.h <= size.w * size.h * c) by (nonlinear_arith)
            requires
                c >= 1,
        ;
    }
    size.area() * c
}

/// Makes the buffer exactly `len` long: longer buffers are truncated, shorter ones
/// are extended with `fill`.
pub fn fit_buffer<T: Copy>(data: &mut Vec<T>, len: usize, fill: T)
    ensures
        final(data)@.len() == len,
        forall|i: int|
            0 <= i < len ==> #[trigger] final(data)@[i] == if i < old(data)@.len() {
                old(data)@[i]
            } else {
                fill
            },
{
    let ghost orig = data@;
    while data.len() > len
        invariant
            data@.len() >= len || data@.len() == orig.len(),
            data@.len() <= orig.len(),
            data@ == orig.subrange(0, data@.len() as int),
        decreases data.len(),
    {
        data.pop();
    }
    assert forall|i: int| 0 <= i < data@.len() implies #[trigger] data@[i] == orig[i] by {}
    while data.len() < len
        invariant
            data@.len() <= len,
            data@.len() >= orig.len() || data@.len() >= len,
            forall|i: int|
                0 <= i < data@.len() ==> #[trigger] data@[i] == if i < orig.len() {
                    orig[i]
                } else {
                    fill
                },
        decreases len - data.len(),
    {
        data.push(fill);
    }
}

} // verus!
