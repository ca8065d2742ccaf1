use std::path::PathBuf;
use widgets::backend::TextureError;
use widgets::font::{font_from_data, FontCache, FontLoadError, FontSource};
use widgets::geometry::{Bounds, BoundsMut, Point, Rect, Size};
use widgets::image::{fit_buffer, image_data_len, texel_layout, ComponentType, PixelFormat, TexelLayout};
use widgets::toplevel::{
    can_fit_content, content_size, default_window_size, initial_viewport, should_exit, window_event_action, window_title,
    WindowAction,
};
use widgets::widget::{Empty, IdCounter, ObjectId, WidgetId};

fn rect(x: i32, y: i32, w: u32, h: u32) -> Rect {
    Rect::from_components(x, y, w, h)
}

#[test]
fn widget_ids_are_unique_and_not_empty() {
    let mut ids = IdCounter::new();
    let a = WidgetId::new(&mut ids);
    let b = WidgetId::new(&mut ids);
    let c = WidgetId::new(&mut ids);
    assert!(a != b && b != c && a != c);
    assert!(a != WidgetId::empty() && b != WidgetId::empty());
    assert_eq!((a.get(), b.get(), c.get()), (1, 2, 3));
    assert_eq!(WidgetId::default(), WidgetId::empty());
    assert_eq!(ids.next_id(), 4);
}

#[test]
fn object_ids() {
    let mut ids = IdCounter::new();
    let a = WidgetId::new(&mut ids);
    assert_eq!(a.get_id(), a);
    assert_eq!(().get_id(), WidgetId::empty());
    assert_eq!(Some(a).get_id(), a);
    assert_eq!(None::<WidgetId>.get_id(), WidgetId::empty());
    assert_eq!(Ok::<WidgetId, ()>(a).get_id(), a);
    assert_eq!(Err::<WidgetId, ()>(()).get_id(), WidgetId::empty());
    assert_eq!(Box::new(a).get_id(), a);
    assert_eq!(Empty::new().get_id(), WidgetId::empty());
}

#[test]
fn empty_widget_bounds() {
    assert_eq!(Empty::new().get_bounds(), rect(0, 0, 0, 0));
    assert_eq!(Empty::default(), Empty::new());
    assert_eq!(Empty::with_size(Size::new(3, 4)).get_bounds(), rect(0, 0, 3, 4));
    let mut e = Empty::with_bounds(rect(1, 2, 3, 4));
    assert_eq!(e.get_position(), Point::new(1, 2));
    assert_eq!(e.get_size(), Size::new(3, 4));
    e.set_position(Point::new(9, 9));
    e.set_size(Size::new(1, 1));
    assert_eq!(e.get_bounds(), rect(9, 9, 1, 1));
    e.set_bounds(rect(0, 0, 2, 2));
    assert_eq!(e.get_bounds(), rect(0, 0, 2, 2));
}

#[test]
fn pixel_formats_and_buffers() {
    assert_eq!(PixelFormat::Luma.num_components(), 1);
    assert_eq!(PixelFormat::LumaA.num_components(), 2);
    assert_eq!(PixelFormat::Rgb.num_components(), 3);
    assert_eq!(PixelFormat::Rgba.num_components(), 4);
    assert_eq!(image_data_len(Size::new(3, 2), PixelFormat::Rgba), 24);
    assert_eq!(image_data_len(Size::new(0, 2), PixelFormat::Rgb), 0);
    let mut short = vec![1u8, 2];
    fit_buffer(&mut short, 4, 0);
    assert_eq!(short, vec![1, 2, 0, 0]);
    let mut long = vec![1u16, 2, 3, 4];
    fit_buffer(&mut long, 1, 0);
    assert_eq!(long, vec![1]);
    let mut floats = vec![0.5f32];
    fit_buffer(&mut floats, 2, 0.0);
    assert_eq!(floats, vec![0.5, 0.0]);
}

#[test]
fn error_descriptions() {
    assert_eq!(
        TextureError::FormatNotSupported.description(),
        "The requested format is not supported by the backend"
    );
    assert_eq!(
        TextureError::DimensionsNotSupported.description(),
        "The requested texture dimensions are not supported"
    );
    assert_eq!(TextureError::TypeNotSupported.description(), "The texture format is not supported by the backend");
    assert_eq!(FontLoadError::InvalidData.description(), "Invalid font data");
    assert_eq!(FontLoadError::InvalidIndex.description(), "Invalid font index");
    let io = std::io::Error::new(std::io::ErrorKind::NotFound, "gone");
    assert_eq!(FontLoadError::from_io(io).description(), "IO error while loading font: gone");
}

#[test]
fn font_sources() {
    let src = FontSource::from_path(PathBuf::from("/fonts/a.ttf"));
    assert_eq!(src.path, PathBuf::from("/fonts/a.ttf"));
    assert_eq!(src.font_index, 0);
    assert_eq!(src.clone(), src);
}

#[test]
fn window_sizes() {
    assert_eq!(default_window_size(), Size::new(320, 240));
    assert_eq!(content_size(rect(10, 20, 30, 40)), Size::new(40, 60));
    assert_eq!(content_size(rect(0, 0, 0, 0)), Size::new(320, 240));
    assert_eq!(initial_viewport(rect(-5, 0, 5, 10)), rect(0, 0, 320, 240));
    assert_eq!(initial_viewport(rect(5, 5, 5, 5)), rect(0, 0, 10, 10));
    assert_eq!(window_title(&Some("awoo".to_string())), "awoo");
    assert_eq!(window_title(&None), "Window");
}

#[test]
fn main_loop_decisions() {
    assert_eq!(window_event_action(true, false, true), WindowAction::UpdateAndRedraw);
    assert_eq!(window_event_action(false, true, false), WindowAction::UpdateAndRedraw);
    assert_eq!(window_event_action(false, false, true), WindowAction::Destroy);
    assert_eq!(window_event_action(false, false, false), WindowAction::Nothing);
    assert!(should_exit(0));
    assert!(!should_exit(2));
}

#[test]
fn texel_layouts() {
    assert_eq!(texel_layout(ComponentType::U8, PixelFormat::Luma), TexelLayout::U8);
    assert_eq!(texel_layout(ComponentType::U8, PixelFormat::Rgba), TexelLayout::U8U8U8U8);
    assert_eq!(texel_layout(ComponentType::U16, PixelFormat::LumaA), TexelLayout::U16U16);
    assert_eq!(texel_layout(ComponentType::U32, PixelFormat::Rgb), TexelLayout::U32U32U32);
    assert_eq!(texel_layout(ComponentType::F32, PixelFormat::Rgba), TexelLayout::F32F32F32F32);
}

#[test]
fn non_font_data_is_invalid() {
    let src = FontSource::from_path(PathBuf::from("fonts/none.ttf"));
    let r = font_from_data(vec![1, 2, 3, 4, 5, 6, 7, 8], &src);
    assert!(matches!(r, Err(FontLoadError::InvalidData)));
    assert!(matches!(font_from_data(Vec::new(), &src), Err(FontLoadError::InvalidData)));
}

#[test]
fn font_cache_keeps_ids() {
    let a = FontSource::from_path(PathBuf::from("a.ttf"));
    let b = FontSource { path: PathBuf::from("a.ttf"), font_index: 1 };
    let mut cache = FontCache::new();
    assert_eq!(cache.find(|s| *s == a), None);
    assert_eq!(cache.insert(a.clone()), 0);
    assert_eq!(cache.find(|s| *s == b), None);
    assert_eq!(cache.insert(b.clone()), 1);
    assert_eq!(cache.find(|s| *s == a), Some(0));
    assert_eq!(cache.find(|s| *s == b), Some(1));
    assert_eq!(cache.len(), 2);
}

#[test]
fn overflow_checks() {
    let r = Rect::from_components(i32::MAX - 5, 0, 10, 10);
    assert!(!r.can_offset(Point::new(10, 0)));
    assert!(r.can_offset(Point::new(-10, 0)));
    assert!(Point::new(0, 0).can_sub(Point::new(i32::MIN + 1, 0)));
    assert!(!Point::new(0, 0).can_sub(Point::new(i32::MIN, 0)));
    // the last column of `r` overflows
    assert!(!Rect::from_components(0, 0, 10, 10).can_intersect(r));
    assert!(Rect::from_components(0, 0, 10, 10).can_clip(Rect::from_components(5, 5, 10, 10)));
    assert!(can_fit_content(Rect::from_components(10, 10, 20, 20)));
    assert!(!can_fit_content(Rect::from_components(i32::MAX, 0, 1, 1)));
}
