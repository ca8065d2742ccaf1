use widgets::geometry::{Bounds, Point, Rect, Size, VAlign};
use widgets::layout::{flow_horiz, foreach, Layout};
use widgets::widget::Empty;

fn rect(x: i32, y: i32, w: u32, h: u32) -> Rect {
    Rect::from_components(x, y, w, h)
}

#[test]
fn layout_relative_placement() {
    let other = rect(100, 100, 20, 10);
    let mut r = rect(0, 0, 5, 5);
    r.right_of(&other, 2);
    assert_eq!(r, rect(122, 0, 5, 5));
    r.left_of(&other, 2);
    assert_eq!(r, rect(93, 0, 5, 5));
    r.below(&other, 3);
    assert_eq!(r, rect(93, 113, 5, 5));
    r.above(&other, 3);
    assert_eq!(r, rect(93, 92, 5, 5));
}

#[test]
fn layout_alignment() {
    let other = rect(100, 100, 20, 10);
    let mut r = rect(0, 0, 5, 5);
    r.align_left(&other, 1).align_top(&other, 2);
    assert_eq!(r, rect(101, 102, 5, 5));
    r.align_right(&other, 0).align_bottom(&other, 0);
    assert_eq!(r, rect(115, 105, 5, 5));
    r.align_hcenter(&other, 0).align_vcenter(&other, 0);
    assert_eq!(r, rect(107, 102, 5, 5));
    r.center_inside(&rect(0, 0, 10, 10));
    assert_eq!(r, rect(2, 2, 5, 5));
    // centering a larger object rounds toward zero
    let mut big = rect(0, 0, 11, 11);
    big.center_inside(&rect(0, 0, 4, 4));
    assert_eq!(big, rect(-3, -3, 11, 11));
}

#[test]
fn flow_horiz_wraps_rows() {
    let mut items = vec![rect(0, 0, 10, 10), rect(0, 0, 10, 20), rect(0, 0, 10, 5)];
    flow_horiz(&mut items, VAlign::Top, 25, 2, 1);
    assert_eq!(items, vec![rect(0, 0, 10, 10), rect(12, 0, 10, 20), rect(0, 21, 10, 5)]);
}

#[test]
fn flow_horiz_bottom_aligns_and_fixes_row() {
    let mut items = vec![rect(0, 0, 10, 10), rect(0, 0, 10, 20), rect(0, 0, 10, 5)];
    flow_horiz(&mut items, VAlign::Bottom, 100, 0, 0);
    assert_eq!(items, vec![rect(0, 10, 10, 10), rect(10, 0, 10, 20), rect(20, 15, 10, 5)]);
}

#[test]
fn flow_horiz_centers_on_widgets() {
    let mut items = vec![
        Empty::with_bounds(rect(5, 5, 10, 10)),
        Empty::with_size(Size::new(10, 4)),
        Empty::with_size(Size::new(4, 4)),
    ];
    flow_horiz(&mut items, VAlign::Center, 23, 0, 2);
    assert_eq!(items[0].get_bounds(), rect(5, 5, 10, 10));
    assert_eq!(items[1].get_bounds(), rect(15, 8, 10, 4));
    assert_eq!(items[2].get_bounds(), rect(5, 17, 4, 4));
}

#[test]
fn flow_horiz_empty_and_single() {
    let mut none: Vec<Rect> = vec![];
    flow_horiz(&mut none, VAlign::Top, 10, 1, 1);
    assert!(none.is_empty());
    let mut one = vec![rect(3, 4, 50, 50)];
    flow_horiz(&mut one, VAlign::Top, 10, 1, 1);
    assert_eq!(one, vec![rect(3, 4, 50, 50)]);
}

#[test]
fn foreach_chains_from_previous() {
    let mut items = vec![rect(1, 1, 5, 5), rect(0, 0, 5, 5), rect(0, 0, 5, 5)];
    foreach(&mut items, |this, prev, first| {
        let mut t = *this;
        t.right_of(prev, 1).align_top(first, 0);
        (t, None)
    });
    assert_eq!(items, vec![rect(1, 1, 5, 5), rect(7, 1, 5, 5), rect(13, 1, 5, 5)]);
    assert_eq!(items[2].get_position(), Point::new(13, 1));
}

#[test]
fn foreach_passes_on_what_f_returns() {
    // every object is placed right of the anchor, which each call passes on
    let anchor = rect(100, 50, 10, 10);
    let mut items = vec![rect(0, 0, 5, 5), rect(0, 0, 5, 5), rect(0, 0, 5, 5)];
    foreach(&mut items, |this, prev, _first| {
        let mut t = *this;
        t.right_of(prev, 2);
        (t, Some(&anchor))
    });
    // the first call gets the first object as previous; later ones get the anchor
    assert_eq!(items, vec![rect(0, 0, 5, 5), rect(7, 0, 5, 5), rect(112, 0, 5, 5)]);
}
