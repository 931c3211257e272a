use xilem::scroll_view::child_event;
use xilem::{
    AccessCx, Axis, Block, BoxConstraints, Event, EventCx, LayoutCx, LifeCycle, LifeCycleCx,
    MouseEvent, PaintCx, Point, Role, Scene, SceneOp, ScrollDelta, ScrollView, Size, UpdateCx,
    Widget, LINE_HEIGHT,
};

const CHILD_ID: u64 = 7;
const OWN_ID: u64 = 3;

fn viewport(height: u32) -> BoxConstraints {
    BoxConstraints::new(Size::new(0, 0), Size::new(400, height))
}

fn wheel(delta: ScrollDelta) -> Event {
    Event::MouseWheel(MouseEvent::new(Point::new(5, 5), Some(delta)))
}

/// A container 200 high around a block 500 high, laid out once.
fn tall_content() -> (ScrollView<Block>, Size) {
    let mut sv = ScrollView::new(Block::new(Size::new(300, 500), 0xff0000ff), CHILD_ID);
    let mut lcx = LayoutCx::new();
    let size = sv.layout(&mut lcx, &viewport(200));
    (sv, size)
}

/// Sends `event` to the container and returns whether it ended up handled.
fn send(sv: &mut ScrollView<Block>, size: Size, event: Event) -> bool {
    let mut cx = EventCx::new(size);
    sv.event(&mut cx, &event);
    cx.is_handled()
}

#[test]
fn launcher_title_defaults_and_can_be_replaced() {
    let launcher = xilem::AppLauncher::new(42u32);
    assert_eq!(launcher.window_title(), "Xilem app");
    let launcher = launcher.title(String::from("Squares"));
    assert_eq!(launcher.window_title(), "Squares");
    assert_eq!(launcher.into_app(), 42);
}

#[test]
fn layout_reports_capped_size_and_requests_paint() {
    let mut sv = ScrollView::new(Block::new(Size::new(300, 500), 1), CHILD_ID);
    let mut lcx = LayoutCx::new();
    let size = sv.layout(&mut lcx, &viewport(200));
    assert_eq!(size, Size::new(300, 200));
    assert!(lcx.needs_paint);
    assert_eq!(sv.child().size(), Size::new(300, 500));
    assert_eq!(sv.offset(), 0);
}

#[test]
fn layout_caps_width_and_keeps_small_child_size() {
    let mut sv = ScrollView::new(Block::new(Size::new(900, 50), 1), CHILD_ID);
    let mut lcx = LayoutCx::new();
    let bc = BoxConstraints::new(Size::new(100, 100), Size::new(400, 200));
    let size = sv.layout(&mut lcx, &bc);
    // the minimum is not applied: a small child leaves the container small
    assert_eq!(size, Size::new(400, 50));
}

#[test]
fn offset_stays_within_bounds_after_layout() {
    let (mut sv, size) = tall_content();
    assert!(send(&mut sv, size, wheel(ScrollDelta::Precise(0, -1000))));
    assert_eq!(sv.offset(), 300);
    let mut lcx = LayoutCx::new();
    let size = sv.layout(&mut lcx, &viewport(400));
    assert_eq!(size.height, 400);
    assert_eq!(sv.offset(), 100);
}

#[test]
fn layout_twice_is_idempotent() {
    let (mut sv, _) = tall_content();
    let mut cx = EventCx::new(Size::new(300, 200));
    sv.event(&mut cx, &wheel(ScrollDelta::Precise(0, -250)));
    assert_eq!(sv.offset(), 250);
    let mut lcx = LayoutCx::new();
    let first = sv.layout(&mut lcx, &viewport(350));
    let first_offset = sv.offset();
    let second = sv.layout(&mut lcx, &viewport(350));
    assert_eq!(first, second);
    assert_eq!(first_offset, sv.offset());
    assert_eq!(first_offset, 150);
}

#[test]
fn three_lines_scroll_back_by_three_line_heights() {
    let (mut sv, size) = tall_content();
    assert!(send(&mut sv, size, wheel(ScrollDelta::Precise(0, -300))));
    assert_eq!(sv.offset(), 300);
    assert!(send(&mut sv, size, wheel(ScrollDelta::Lines(0, 3))));
    assert_eq!(sv.offset() as i64, 300 - 3 * LINE_HEIGHT);
    assert!(send(&mut sv, size, wheel(ScrollDelta::Lines(0, 3))));
    assert_eq!(sv.offset(), 0);
}

#[test]
fn scrolling_up_at_top_leaves_event_unhandled() {
    let (mut sv, size) = tall_content();
    assert!(!send(&mut sv, size, wheel(ScrollDelta::Lines(0, 3))));
    assert_eq!(sv.offset(), 0);
    assert!(!send(&mut sv, size, wheel(ScrollDelta::Precise(0, 40))));
    assert_eq!(sv.offset(), 0);
}

#[test]
fn scrolling_down_at_bottom_leaves_event_unhandled() {
    let (mut sv, size) = tall_content();
    assert!(send(&mut sv, size, wheel(ScrollDelta::Lines(0, -10))));
    assert_eq!(sv.offset(), 300);
    assert!(!send(&mut sv, size, wheel(ScrollDelta::Lines(0, -1))));
    assert_eq!(sv.offset(), 300);
}

#[test]
fn wheel_without_delta_changes_nothing() {
    let (mut sv, size) = tall_content();
    let event = Event::MouseWheel(MouseEvent::new(Point::new(0, 0), None));
    assert!(!send(&mut sv, size, event));
    assert_eq!(sv.offset(), 0);
}

#[test]
fn scroll_requests_paint() {
    let (mut sv, size) = tall_content();
    let mut cx = EventCx::new(size);
    sv.event(&mut cx, &wheel(ScrollDelta::Lines(0, -1)));
    assert!(cx.handled);
    assert!(cx.needs_paint);
    assert_eq!(sv.offset() as i64, LINE_HEIGHT);
}

#[test]
fn mouse_down_is_translated_into_child_space() {
    let (mut sv, size) = tall_content();
    assert!(send(&mut sv, size, wheel(ScrollDelta::Precise(0, -15))));
    assert_eq!(sv.offset(), 15);
    let down = Event::MouseDown(MouseEvent::new(Point::new(10, 40), None));
    assert!(!send(&mut sv, size, down));
    assert_eq!(sv.child().widget.last_pointer, Some(Point::new(10, 55)));
}

#[test]
fn child_event_translates_pointer_events_only() {
    let m = MouseEvent::new(Point::new(10, 40), None);
    let moved = MouseEvent::new(Point::new(10, 55), None);
    assert_eq!(child_event(&Event::MouseDown(m), 15), Event::MouseDown(moved));
    assert_eq!(child_event(&Event::MouseUp(m), 15), Event::MouseUp(moved));
    assert_eq!(child_event(&Event::MouseMove(m), 15), Event::MouseMove(moved));
    assert_eq!(child_event(&Event::MouseWheel(m), 15), Event::MouseWheel(moved));
    assert_eq!(child_event(&Event::MouseLeft, 15), Event::MouseLeft);
    let far = MouseEvent::new(Point::new(1, i64::MAX - 3), None);
    let clipped = MouseEvent::new(Point::new(1, i64::MAX), None);
    assert_eq!(child_event(&Event::MouseMove(far), 15), Event::MouseMove(clipped));
}

#[test]
fn handled_wheel_does_not_scroll() {
    let block = Block::new(Size::new(300, 500), 1).consuming_wheel();
    let mut sv = ScrollView::new(block, CHILD_ID);
    let mut lcx = LayoutCx::new();
    let size = sv.layout(&mut lcx, &viewport(200));
    let mut cx = EventCx::new(size);
    sv.event(&mut cx, &wheel(ScrollDelta::Precise(0, -120)));
    assert!(cx.handled);
    assert!(!cx.needs_paint);
    assert_eq!(sv.offset(), 0);
}

#[test]
fn handle_wheel_respects_handled_flag() {
    let (mut sv, size) = tall_content();
    let mut cx = EventCx::new(size);
    cx.set_handled(true);
    sv.handle_wheel(&mut cx, &wheel(ScrollDelta::Precise(0, -120)));
    assert_eq!(sv.offset(), 0);
    assert!(cx.handled);
}

#[test]
fn scroll_then_shrink_child() {
    let (mut sv, size) = tall_content();
    assert_eq!(size.height, 200);
    assert!(send(&mut sv, size, wheel(ScrollDelta::Precise(0, -120))));
    assert_eq!(sv.offset(), 120);

    sv.child_mut().widget.set_size(Size::new(300, 150));
    let mut ucx = UpdateCx::new();
    sv.update(&mut ucx);
    assert!(ucx.needs_layout);

    let mut lcx = LayoutCx::new();
    let size = sv.layout(&mut lcx, &viewport(200));
    assert_eq!(size, Size::new(300, 150));
    assert_eq!(sv.offset(), 0);
}

#[test]
fn accessibility_unrequested_container_exports_child_only() {
    let (mut sv, _) = tall_content();
    let mut cx = AccessCx::new(OWN_ID, false);
    sv.accessibility(&mut cx);
    assert_eq!(cx.nodes.len(), 1);
    assert_eq!(cx.nodes[0].id, CHILD_ID);
    assert_eq!(cx.nodes[0].role, Role::Unknown);
    assert!(cx.nodes[0].children.is_empty());
    assert!(!sv.child().access_requested);

    // the child's request was consumed: a second pass exports nothing
    let mut cx = AccessCx::new(OWN_ID, false);
    sv.accessibility(&mut cx);
    assert!(cx.nodes.is_empty());
}

#[test]
fn accessibility_requested_container_follows_child() {
    let (mut sv, _) = tall_content();
    let mut cx = AccessCx::new(OWN_ID, true);
    sv.accessibility(&mut cx);
    assert_eq!(cx.nodes.len(), 2);
    assert_eq!(cx.nodes[0].id, CHILD_ID);
    assert_eq!(cx.nodes[1].id, OWN_ID);
    assert_eq!(cx.nodes[1].role, Role::GenericContainer);
    assert_eq!(cx.nodes[1].children, vec![CHILD_ID]);
    assert_eq!(cx.id, OWN_ID);
    assert!(cx.requested);
}

#[test]
fn intrinsic_negative_minimum_gives_zero() {
    let (sv, _) = tall_content();
    let bc = BoxConstraints {
        min_width: -1,
        min_height: -1,
        max_width: Some(400),
        max_height: Some(200),
    };
    assert_eq!(sv.compute_max_intrinsic(Axis::Horizontal, &bc), 0);
    assert_eq!(sv.compute_max_intrinsic(Axis::Vertical, &bc), 0);
}

#[test]
fn intrinsic_clamps_child_length() {
    let (sv, _) = tall_content();
    let bc = BoxConstraints::new(Size::new(10, 10), Size::new(250, 200));
    assert_eq!(sv.compute_max_intrinsic(Axis::Vertical, &bc), 200);
    assert_eq!(sv.compute_max_intrinsic(Axis::Horizontal, &bc), 250);
    let small = ScrollView::new(Block::new(Size::new(4, 5), 1), CHILD_ID);
    assert_eq!(small.compute_max_intrinsic(Axis::Vertical, &bc), 10);
    assert_eq!(small.compute_max_intrinsic(Axis::Horizontal, &bc), 10);
    let unbounded = BoxConstraints {
        min_width: 0,
        min_height: 0,
        max_width: None,
        max_height: None,
    };
    assert_eq!(sv.compute_max_intrinsic(Axis::Vertical, &unbounded), 500);
}

#[test]
fn paint_clips_and_translates_child() {
    let (mut sv, size) = tall_content();
    assert!(send(&mut sv, size, wheel(ScrollDelta::Precise(0, -120))));
    let mut scene = Scene::new();
    sv.paint(&PaintCx { size }, &mut scene);
    assert_eq!(
        scene.ops,
        vec![
            SceneOp::PushClip(Size::new(300, 200)),
            SceneOp::PushTranslate(0, -120),
            SceneOp::FillRect(Size::new(300, 500), 0xff0000ff),
            SceneOp::PopTranslate,
            SceneOp::PopClip,
        ]
    );
}

#[test]
fn lifecycle_passes_through() {
    let (mut sv, _) = tall_content();
    let mut cx = LifeCycleCx::new();
    sv.lifecycle(&mut cx, &LifeCycle::WidgetAdded);
    assert!(!cx.needs_layout);
    assert_eq!(sv.offset(), 0);
}

#[test]
fn update_without_pending_change_is_idempotent() {
    let (mut sv, _) = tall_content();
    let mut ucx = UpdateCx::new();
    sv.update(&mut ucx);
    sv.update(&mut ucx);
    assert!(!ucx.needs_layout);
    assert_eq!(sv.child().widget.natural, Size::new(300, 500));
}

#[test]
fn extreme_wheel_deltas_clamp_to_the_ends() {
    let mut sv = ScrollView::new(Block::new(Size::new(10, u32::MAX), 1), CHILD_ID);
    let mut lcx = LayoutCx::new();
    let size = sv.layout(&mut lcx, &viewport(0));
    assert_eq!(size, Size::new(10, 0));
    assert!(send(&mut sv, size, wheel(ScrollDelta::Lines(0, i64::MIN))));
    assert_eq!(sv.offset(), u32::MAX);
    assert!(send(&mut sv, size, wheel(ScrollDelta::Precise(0, i64::MAX))));
    assert_eq!(sv.offset(), 0);
    assert!(send(&mut sv, size, wheel(ScrollDelta::Precise(0, i64::MIN))));
    assert_eq!(sv.offset(), u32::MAX);
    assert!(send(&mut sv, size, wheel(ScrollDelta::Lines(0, i64::MAX))));
    assert_eq!(sv.offset(), 0);
}

#[test]
fn zero_height_child_never_scrolls() {
    let mut sv = ScrollView::new(Block::new(Size::new(10, 0), 1), CHILD_ID);
    let mut lcx = LayoutCx::new();
    let size = sv.layout(&mut lcx, &viewport(200));
    assert_eq!(size, Size::new(10, 0));
    assert!(!send(&mut sv, size, wheel(ScrollDelta::Lines(0, -5))));
    assert_eq!(sv.offset(), 0);
}

#[test]
fn accessibility_action_passes_through_unchanged() {
    let (mut sv, size) = tall_content();
    let event = Event::TargetedAccessibilityAction(xilem::ActionRequest {
        target: CHILD_ID,
        action: xilem::Action::ScrollDown,
    });
    assert_eq!(child_event(&event, 40), event);
    assert!(!send(&mut sv, size, event));
    assert_eq!(sv.offset(), 0);
    assert_eq!(sv.child().widget.last_pointer, None);
}

#[test]
fn nested_containers_scroll_innermost_first() {
    let inner = ScrollView::new(Block::new(Size::new(100, 1000), 1), 11);
    let mut outer = ScrollView::new(inner, 12);
    let mut lcx = LayoutCx::new();
    let size = outer.layout(&mut lcx, &viewport(300));
    assert_eq!(size, Size::new(100, 300));
    // the inner container is as tall as its child under unbounded height
    assert_eq!(outer.child().size(), Size::new(100, 1000));
    let mut cx = EventCx::new(size);
    outer.event(&mut cx, &wheel(ScrollDelta::Precise(0, -50)));
    assert!(cx.handled);
    assert_eq!(outer.offset(), 50);
    assert_eq!(outer.child().widget.offset(), 0);
}
