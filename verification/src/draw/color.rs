//! Packing of 8-bit color components into 32-bit `0xAARRGGBB` values.
use vstd::prelude::*;

verus! {

/// The `0xAARRGGBB` value with the given components.
pub open spec fn argb_spec(r: u8, g: u8, b: u8, a: u8) -> u32 {
    (b as u32) | ((g as u32) << 8u32) | ((r as u32) << 16u32) | ((a as u32) << 24u32)
}

/// Packs `[r, g, b, a]` components into the `0xAARRGGBB` format commonly used in the web.
pub fn pack_argb(rgba: [u8; 4]) -> (v: u32)
    ensures
        v == argb_spec(rgba@[0], rgba@[1], rgba@[2], rgba@[3]),
        v as int == rgba@[2] + rgba@[1] * 0x100 + rgba@[0] * 0x1_0000 + rgba@[3] * 0x100_0000,
{
    let r = rgba[0];
    let g = rgba[1];
    let b = rgba[2];
    let a = rgba[3];
    let v = (b as u32) | ((g as u32) << 8u32) | ((r as u32) << 16u32) | ((a as u32) << 24u32);
    assert(v == argb_spec(r, g, b, a));
    assert(argb_spec(r, g, b, a) as int == b + g * 0x100 + r * 0x1_0000 + a * 0x100_0000)
        by (bit_vector);
    v
}

/// Splits a `0xAARRGGBB` value into its `[r, g, b, a]` components.
pub fn unpack_argb(v: u32) -> (rgba: [u8; 4])
    ensures
        rgba@[0] == (v >> 16u32) as u8,
        rgba@[1] == (v >> 8u32) as u8,
        rgba@[2] == v as u8,
        rgba@[3] == (v >> 24u32) as u8,
        rgba@[0] == (v / 0x1_0000) % 0x100,
        rgba@[1] == (v / 0x100) % 0x100,
        rgba@[2] == v % 0x100,
        rgba@[3] == v / 0x100_0000,
{
    let r = (v >> 16u32) as u8;
    let g = (v >> 8u32) as u8;
    let b = v as u8;
    let a = (v >> 24u32) as u8;
    assert(((v >> 16u32) as u8) as int == (v / 0x1_0000) % 0x100) by (bit_vector);
    assert(((v >> 8u32) as u8) as int == (v / 0x100) % 0x100) by (bit_vector);
    assert((v as u8) as int == v % 0x100) by (bit_vector);
    assert(((v >> 24u32) as u8) as int == v / 0x100_0000) by (bit_vector);
    [r, g, b, a]
}

/// Unpacking a packed color gives back its components.
pub proof fn lemma_unpack_pack(r: u8, g: u8, b: u8, a: u8)
    ensures
        (argb_spec(r, g, b, a) >> 16u32) as u8 == r,
        (argb_spec(r, g, b, a) >> 8u32) as u8 == g,
        argb_spec(r, g, b, a) as u8 == b,
        (argb_spec(r, g, b, a) >> 24u32) as u8 == a,
{
    assert((((b as u32) | ((g as u32) << 8u32) | ((r as u32) << 16u32) | ((a as u32) << 24u32))
        >> 16u32) as u8 == r) by (bit_vector);
    assert((((b as u32) | ((g as u32) << 8u32) | ((r as u32) << 16u32) | ((a as u32) << 24u32))
        >> 8u32) as u8 == g) by (bit_vector);
    assert(((b as u32) | ((g as u32) << 8u32) | ((r as u32) << 16u32) | ((a as u32) << 24u32))
        as u8 == b) by (bit_vector);
    assert((((b as u32) | ((g as u32) << 8u32) | ((r as u32) << 16u32) | ((a as u32) << 24u32))
        >> 24u32) as u8 == a) by (bit_vector);
}

/// Packing the components of a value gives back the value.
pub proof fn lemma_pack_unpack(v: u32)
    ensures
        argb_spec((v >> 16u32) as u8, (v >> 8u32) as u8, v as u8, (v >> 24u32) as u8) == v,
{
    assert((((v as u8) as u32) | ((((v >> 8u32) as u8) as u32) << 8u32) | ((((v >> 16u32) as u8)
        as u32) << 16u32) | ((((v >> 24u32) as u8) as u32) << 24u32)) == v) by (bit_vector);
}

} // verus!
