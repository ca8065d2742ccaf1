use widgets::draw::{
    gl_scissor, rect_visible, pack_argb, unpack_argb, DrawCmdData, DrawCommand, DrawContext, DrawQueue, RenderStep,
    TextureId,
};
use widgets::geometry::{Point, Rect, Size};
use widgets::backend::TextureTable;
use widgets::widget::IdCounter;

fn rect(x: i32, y: i32, w: u32, h: u32) -> Rect {
    Rect::from_components(x, y, w, h)
}

fn tris(cmd: &DrawCommand<String>) -> DrawCmdData {
    match cmd {
        DrawCommand::Triangles(d) => *d,
        DrawCommand::Text(..) => panic!("expected triangles"),
    }
}

#[test]
fn draw_queue_batches_compatible_triangles() {
    let mut ids = IdCounter::new();
    let tex = TextureId::new(&mut ids);
    let vp = rect(0, 0, 100, 100);
    let mut q: DrawQueue<u32, String> = DrawQueue::new();
    q.push_tris(&[10, 11, 12], &[0, 1, 2], None, vp);
    q.push_tris(&[13, 14, 15], &[0, 1, 2], None, vp);
    assert_eq!(q.vertices(), &vec![10, 11, 12, 13, 14, 15]);
    assert_eq!(q.indices(), &vec![0, 1, 2, 3, 4, 5]);
    assert_eq!(q.commands().len(), 1);
    assert_eq!(
        tris(&q.commands()[0]),
        DrawCmdData { idx_start: 0, idx_end: 6, texture: None, viewport: vp }
    );
    q.push_tris(&[16], &[0, 0, 0], Some(tex), vp);
    assert_eq!(q.commands().len(), 2);
    assert_eq!(
        tris(&q.commands()[1]),
        DrawCmdData { idx_start: 6, idx_end: 9, texture: Some(tex), viewport: vp }
    );
    assert_eq!(q.indices()[6..], [6, 6, 6]);
    q.push_tris(&[17, 18], &[1, 0], Some(tex), rect(0, 0, 10, 10));
    assert_eq!(q.commands().len(), 3);
}

#[test]
fn draw_queue_text_breaks_batches() {
    let vp = rect(0, 0, 100, 100);
    let mut q: DrawQueue<u8, String> = DrawQueue::new();
    q.push_tris(&[1, 2, 3], &[0, 1, 2], None, vp);
    q.push_text("hello".to_string(), vp);
    q.push_tris(&[4, 5, 6], &[2, 1, 0], None, vp);
    assert_eq!(q.commands().len(), 3);
    match &q.commands()[1] {
        DrawCommand::Text(t, v) => {
            assert_eq!(t, "hello");
            assert_eq!(*v, vp);
        }
        DrawCommand::Triangles(_) => panic!("expected text"),
    }
    assert_eq!(
        match &q.commands()[2] {
            DrawCommand::Triangles(d) => (d.idx_start, d.idx_end),
            DrawCommand::Text(..) => (0, 0),
        },
        (3, 6)
    );
    assert_eq!(q.indices(), &vec![0, 1, 2, 5, 4, 3]);
    q.clear();
    assert!(q.vertices().is_empty() && q.indices().is_empty() && q.commands().is_empty());
}

#[test]
fn scissor_box_from_bottom() {
    assert_eq!(gl_scissor(rect(10, 20, 30, 40), 100), (10, 40, 30, 40));
    assert_eq!(gl_scissor(rect(0, 0, 100, 100), 100), (0, 0, 100, 100));
}

#[test]
fn argb_packing_round_trips() {
    assert_eq!(pack_argb([0x12, 0x34, 0x56, 0x78]), 0x7812_3456);
    assert_eq!(unpack_argb(0x7812_3456), [0x12, 0x34, 0x56, 0x78]);
    assert_eq!(unpack_argb(0xff00_00ff), [0, 0, 0xff, 0xff]);
    for v in [0u32, 1, 0xdead_beef, u32::MAX] {
        assert_eq!(pack_argb(unpack_argb(v)), v);
    }
}

#[test]
fn texture_ids_are_distinct() {
    let mut ids = IdCounter::new();
    let a = TextureId::new(&mut ids);
    let b = TextureId::new(&mut ids);
    assert_ne!(a, b);
    assert_eq!(a.get(), 1);
    assert_eq!(b.get(), 2);
    assert!(a < b);
}

#[test]
fn draw_context_children() {
    let mut backend: Vec<u32> = vec![7];
    let mut dc = DrawContext::new(&mut backend, rect(10, 10, 100, 100));
    assert_eq!(dc.origin(), Point::new(0, 0));
    assert_eq!(dc.offset(), Point::new(10, 10));
    assert_eq!(dc.viewport(), rect(10, 10, 100, 100));
    {
        let child = dc.child_context(rect(5, 5, 20, 20), Point::new(0, 0)).unwrap();
        assert_eq!(child.viewport(), rect(15, 15, 20, 20));
        assert_eq!(child.offset(), Point::new(15, 15));
    }
    {
        let mut child = dc.child_context(rect(95, 95, 20, 20), Point::new(3, 4)).unwrap();
        assert_eq!(child.viewport(), rect(105, 105, 5, 5));
        assert_eq!(child.offset(), Point::new(102, 101));
        assert_eq!(child.origin(), Point::new(3, 4));
        child.backend().push(8);
    }
    assert!(dc.child_context(rect(200, 200, 5, 5), Point::new(0, 0)).is_none());
    dc.backend().push(9);
    assert_eq!(backend, vec![7, 8, 9]);
}

#[test]
fn rect_visibility() {
    let vp = rect(0, 0, 10, 10);
    assert!(rect_visible(rect(5, 5, 10, 10), vp));
    assert!(!rect_visible(rect(5, 5, 0, 10), vp));
    assert!(!rect_visible(rect(20, 20, 5, 5), vp));
}

#[test]
fn texture_table_load_and_delete() {
    let mut ids = IdCounter::new();
    let a = TextureId::new(&mut ids);
    let b = TextureId::new(&mut ids);
    let mut table: TextureTable<&str> = TextureTable::new();
    assert!(table.get(a).is_none());
    table.load(a, "first");
    assert_eq!(table.get(a), Some(&"first"));
    table.load(a, "second");
    assert_eq!(table.get(a), Some(&"second"));
    assert!(!table.load_once(a, "third"));
    assert_eq!(table.get(a), Some(&"second"));
    assert!(table.load_once(b, "other"));
    assert!(table.contains(b));
    table.delete(a);
    assert!(!table.contains(a));
    assert_eq!(table.get(b), Some(&"other"));
}

#[test]
fn render_plan_clips_viewports_to_window() {
    let mut ids = IdCounter::new();
    let tex = TextureId::new(&mut ids);
    let mut q: DrawQueue<u8, String> = DrawQueue::new();
    // partly outside the window on the left and bottom
    q.push_tris(&[1, 2, 3], &[0, 1, 2], Some(tex), rect(-10, 50, 40, 100));
    // entirely outside the window
    q.push_text("gone".to_string(), rect(200, 0, 10, 10));
    // inside the window
    q.push_text("shown".to_string(), rect(10, 20, 30, 40));
    let plan = q.render_plan(Size::new(100, 120));
    assert_eq!(plan.len(), 3);
    match plan[0] {
        RenderStep::Triangles { idx_start, idx_end, texture, scissor } => {
            assert_eq!((idx_start, idx_end), (0, 3));
            assert_eq!(texture, Some(tex));
            // clipped to (0, 50, 30, 70); bottom = 120 - 70 - 50
            assert_eq!(scissor, (0, 0, 30, 70));
        }
        other => panic!("expected triangles, got {:?}", other),
    }
    assert!(matches!(plan[1], RenderStep::Skip));
    match plan[2] {
        RenderStep::Text { scissor } => assert_eq!(scissor, (10, 60, 30, 40)),
        other => panic!("expected text, got {:?}", other),
    }
}

#[test]
fn render_plan_of_empty_queue_is_empty() {
    let q: DrawQueue<u8, String> = DrawQueue::new();
    assert!(q.render_plan(Size::new(640, 480)).is_empty());
}
