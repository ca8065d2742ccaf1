use widgets::geometry::{Alignment, Border, Bounds, BoundsMut, HAlign, Point, Rect, Size, VAlign};

fn rect(x: i32, y: i32, w: u32, h: u32) -> Rect {
    Rect::from_components(x, y, w, h)
}

#[test]
fn rect_components_and_ends() {
    let r = rect(10, 20, 30, 40);
    assert_eq!((r.x(), r.y(), r.w(), r.h()), (10, 20, 30, 40));
    assert_eq!(r.end_x(), 39);
    assert_eq!(r.end_y(), 59);
    assert_eq!(r.top_left(), Point::new(10, 20));
    assert_eq!(r.top_right(), Point::new(39, 20));
    assert_eq!(r.bottom_left(), Point::new(10, 59));
    assert_eq!(r.bottom_right(), Point::new(39, 59));
    assert_eq!(r.into_components(), (10, 20, 30, 40));
    assert_eq!(r.into_parts(), (Point::new(10, 20), Size::new(30, 40)));
}

#[test]
fn rect_end_wraps_for_huge_sizes() {
    // a width above i32::MAX is reinterpreted as a negative i32
    let r = rect(0, 0, u32::MAX, 1);
    assert_eq!(r.end_x(), -2);
}

#[test]
fn rect_constructors() {
    assert_eq!(Rect::new(Point::new(1, 2), Size::new(3, 4)), rect(1, 2, 3, 4));
    assert_eq!(Rect::new_at_origin(Size::new(3, 4)), rect(0, 0, 3, 4));
    assert_eq!(Rect::new_centered(Point::new(10, 10), Size::new(5, 4)), rect(8, 8, 5, 4));
    assert_eq!(Rect::default(), rect(0, 0, 0, 0));
    assert_eq!(Rect::from(Size::new(7, 8)), rect(0, 0, 7, 8));
}

#[test]
fn rect_from_coords_orders_corners() {
    let a = Rect::from_coords(10, 20, 5, 2);
    assert_eq!(a, rect(5, 2, 6, 19));
    assert_eq!(Rect::from_coords(5, 2, 10, 20), a);
    assert!(a.contains(Point::new(10, 20)));
    assert!(a.contains(Point::new(5, 2)));
    assert_eq!(Rect::from_coords(3, 3, 3, 3), rect(3, 3, 1, 1));
}

#[test]
fn rect_contains() {
    let r = rect(0, 0, 10, 10);
    assert!(r.contains(Point::new(0, 0)));
    assert!(r.contains(Point::new(9, 9)));
    assert!(!r.contains(Point::new(10, 9)));
    assert!(!r.contains(Point::new(-1, 5)));
    assert!(!rect(0, 0, 0, 0).contains(Point::new(0, 0)));
}

#[test]
fn rect_intersects_is_symmetric() {
    let a = rect(0, 0, 10, 10);
    let b = rect(9, 9, 5, 5);
    let c = rect(10, 0, 5, 5);
    assert!(a.intersects(b) && b.intersects(a));
    assert!(!a.intersects(c) && !c.intersects(a));
}

#[test]
fn rect_inside() {
    let outer = rect(0, 0, 10, 10);
    assert!(rect(2, 2, 3, 3).inside(outer));
    assert!(outer.inside(outer));
    assert!(!rect(8, 8, 3, 3).inside(outer));
}

#[test]
fn rect_moves() {
    let r = rect(3, 4, 10, 10);
    assert_eq!(r.with_pos(Point::new(1, 1)), rect(1, 1, 10, 10));
    assert_eq!(r.with_size(Size::new(1, 2)), rect(3, 4, 1, 2));
    assert_eq!(r.at_origin(), rect(0, 0, 10, 10));
    assert_eq!(r.expand_to_origin(), rect(0, 0, 13, 14));
    assert_eq!(r.offset(Point::new(-3, 6)), rect(0, 10, 10, 10));
    assert_eq!(r.offset(Point::new(1, 1)).offset(Point::new(2, 3)), r.offset(Point::new(3, 4)));
    assert_eq!(r.map_pos(|p| p.offset(1, 1)), rect(4, 5, 10, 10));
    assert_eq!(r.map_size(|s| s.with_width(2)), rect(3, 4, 2, 10));
}

#[test]
fn rect_borders_round_trip() {
    let r = rect(10, 10, 20, 20);
    let b = Border { left: 1, right: 2, top: 3, bottom: 4 };
    let grown = r.add_border(b);
    assert_eq!(grown, rect(9, 7, 23, 27));
    assert_eq!(grown.remove_border(b), r);
}

#[test]
fn rect_remove_border_saturates() {
    let r = rect(0, 0, 2, 2).remove_border(Border::all(5));
    assert_eq!(r, rect(5, 5, 0, 0));
}

#[test]
fn rect_clip_inside() {
    let a = rect(0, 0, 10, 10);
    assert_eq!(a.clip_inside(rect(5, 5, 10, 10)), Some(rect(5, 5, 5, 5)));
    assert_eq!(rect(5, 5, 10, 10).clip_inside(a), Some(rect(5, 5, 5, 5)));
    assert_eq!(a.clip_inside(rect(2, 3, 4, 5)), Some(rect(2, 3, 4, 5)));
    assert_eq!(a.clip_inside(rect(20, 20, 5, 5)), None);
    assert_eq!(rect(-5, -5, 10, 10).clip_inside(a), Some(rect(0, 0, 5, 5)));
}

#[test]
fn rect_merge() {
    let a = rect(0, 0, 2, 2);
    let b = rect(5, 5, 1, 1);
    assert_eq!(a.merge(b), rect(0, 0, 6, 6));
    assert_eq!(b.merge(a), rect(0, 0, 6, 6));
    assert!(a.inside(a.merge(b)) && b.inside(a.merge(b)));
    assert_eq!(rect(-3, 2, 1, 1).merge(rect(1, -4, 2, 2)), rect(-3, -4, 6, 7));
}

#[test]
fn rect_bounds_traits() {
    let mut r = rect(1, 2, 3, 4);
    assert_eq!(r.get_position(), Point::new(1, 2));
    assert_eq!(r.get_size(), Size::new(3, 4));
    assert_eq!(r.get_bounds(), r);
    r.set_position(Point::new(5, 6));
    assert_eq!(r, rect(5, 6, 3, 4));
    r.set_size(Size::new(7, 8));
    assert_eq!(r, rect(5, 6, 7, 8));
    r.set_bounds(rect(0, 0, 1, 1));
    assert_eq!(r.get_bounds(), rect(0, 0, 1, 1));
}

#[test]
fn border_basics() {
    assert_eq!(Border::all(3), Border { left: 3, right: 3, top: 3, bottom: 3 });
    assert_eq!(Border::symmetric(1, 2), Border { left: 1, right: 1, top: 2, bottom: 2 });
    let b = Border { left: 1, right: 2, top: 3, bottom: 4 };
    assert_eq!(b.total_width(), 3);
    assert_eq!(b.total_height(), 7);
    assert_eq!(b.components(), [1, 2, 3, 4]);
    assert_eq!(Border::default(), Border::all(0));
}

#[test]
fn border_calc_rects_are_disjoint() {
    let bounds = rect(0, 0, 10, 10);
    let b = Border { left: 1, right: 2, top: 3, bottom: 4 };
    let rects = b.calc_rects(bounds);
    assert_eq!(rects, vec![rect(0, 0, 10, 3), rect(0, 3, 1, 7), rect(8, 3, 2, 7), rect(1, 6, 7, 4)]);
    for (i, a) in rects.iter().enumerate() {
        assert!(a.inside(bounds));
        for (j, c) in rects.iter().enumerate() {
            if i != j {
                assert!(!a.intersects(*c));
            }
        }
    }
}

#[test]
fn border_calc_rects_skips_empty_sides() {
    let b = Border { left: 0, right: 0, top: 2, bottom: 0 };
    assert_eq!(b.calc_rects(rect(5, 5, 4, 4)), vec![rect(5, 5, 4, 2)]);
    assert!(Border::all(0).calc_rects(rect(0, 0, 4, 4)).is_empty());
}

#[test]
fn point_and_size_ops() {
    let p = Point::new(3, -4);
    assert_eq!(p + Point::new(1, 1), Point::new(4, -3));
    assert_eq!(p - Point::new(1, 1), Point::new(2, -5));
    assert_eq!(p.offset(-3, 4), Point::zero());
    assert_eq!(p.with_x(0), Point::new(0, -4));
    assert_eq!(p.with_y(0), Point::new(3, 0));
    assert_eq!(p.as_size(), Size::new(3, u32::MAX - 3));
    assert_eq!(Point::default(), Point::new(0, 0));
    let s = Size::new(4, 5);
    assert_eq!(s + Size::new(1, 1), Size::new(5, 6));
    assert_eq!(s - Size::new(1, 1), Size::new(3, 4));
    assert_eq!(s.as_point(), Point::new(4, 5));
    assert_eq!(s.as_position(), Point::new(4, 5));
    assert_eq!(Size::new(u32::MAX, 1).as_point(), Point::new(-1, 1));
    assert_eq!(s.with_height(9), Size::new(4, 9));
    assert_eq!(s.area(), 20);
    assert!(!s.is_zero_area());
    assert!(Size::new(0, 5).is_zero_area());
    assert_eq!(Size::new(0, 5).nonzero_or(s), s);
    assert_eq!(Size::new(2, 2).nonzero_or(s), Size::new(2, 2));
    assert_eq!(Size::new(2, 0).get_nonzero(), None);
    assert_eq!(s.get_nonzero(), Some(s));
    assert_eq!(Size::zero(), Size::default());
}

#[test]
fn alignment_defaults() {
    let a = Alignment::default();
    assert_eq!(a.horizontal, HAlign::Left);
    assert_eq!(a.vertical, VAlign::Top);
    assert_eq!(Alignment::from_horizontal(HAlign::Center).vertical, VAlign::Top);
    assert_eq!(Alignment::from_vertical(VAlign::Bottom).horizontal, HAlign::Left);
}

#[test]
fn border_rects_cover_the_border_exactly() {
    let bounds = Rect::from_components(3, -2, 12, 9);
    let b = Border { left: 2, right: 1, top: 3, bottom: 2 };
    let rects = b.calc_rects(bounds);
    let inner = bounds.remove_border(b);
    for y in -4..10 {
        for x in 0..18 {
            let p = Point::new(x, y);
            let hits = rects.iter().filter(|r| r.contains(p)).count();
            let in_border = bounds.contains(p) && !inner.contains(p);
            assert_eq!(hits, if in_border { 1 } else { 0 }, "at {:?}", p);
        }
    }
}
