//! A container that shows a vertical window onto a taller child.
use vstd::prelude::*;
use crate::geometry::{Axis, BoxConstraints, Point, Size, cap, capped};
use crate::widget::{
    AccessCx, AccessNode, Event, EventCx, LayoutCx, LifeCycle, LifeCycleCx, MouseEvent, PaintCx,
    Pod, Role, Scene, SceneOp, ScrollDelta, UpdateCx, Widget,
};

verus! {

/// Pixels scrolled per wheel line. Platforms may report their own line
/// setting; this is the value used when they do not.
pub const LINE_HEIGHT: i64 = 53;

/// `v` clamped into `[lo, hi]`.
pub open spec fn clamp(v: int, lo: int, hi: int) -> int {
    if v < lo {
        lo
    } else if v > hi {
        hi
    } else {
        v
    }
}

/// How far a child of height `child_h` can be scrolled inside a viewport of
/// height `own_h`.
pub open spec fn max_offset(child_h: int, own_h: int) -> int {
    if child_h > own_h {
        child_h - own_h
    } else {
        0
    }
}

/// The change of offset a wheel delta asks for: the negated pixel delta, or
/// the negated line count times the line height.
pub open spec fn wheel_y_delta(delta: Option<ScrollDelta>) -> int {
    match delta {
        Some(ScrollDelta::Precise(_, y)) => -y,
        Some(ScrollDelta::Lines(_, y)) => -y * LINE_HEIGHT,
        None => 0,
    }
}

/// The offset after a wheel movement, kept within `[0, max_off]`.
pub open spec fn wheel_offset(offset: int, delta: Option<ScrollDelta>, max_off: int) -> int {
    clamp(offset + wheel_y_delta(delta), 0, max_off)
}

/// The container's own wheel handling after the child has seen `event`:
/// the new offset and whether the event is now handled.
pub open spec fn wheel_step(offset: int, event: Event, max_off: int, handled: bool) -> (int, bool) {
    if handled {
        (offset, true)
    } else {
        match event {
            Event::MouseWheel(m) => {
                let t = wheel_offset(offset, m.wheel_delta, max_off);
                if t != offset {
                    (t, true)
                } else {
                    (offset, false)
                }
            },
            _ => (offset, false),
        }
    }
}

/// A parent-space vertical coordinate in child space: moved down by the
/// offset, saturating at the largest coordinate.
pub open spec fn child_y(y: int, offset: int) -> int {
    if y + offset > i64::MAX {
        i64::MAX as int
    } else {
        y + offset
    }
}

pub open spec fn shifted(m: MouseEvent, offset: int) -> MouseEvent {
    MouseEvent { pos: Point { x: m.pos.x, y: child_y(m.pos.y as int, offset) as i64 }, ..m }
}

/// The event as the child sees it: pointer events moved into child space,
/// the rest unchanged.
pub open spec fn child_event_spec(event: Event, offset: int) -> Event {
    match event {
        Event::MouseDown(m) => Event::MouseDown(shifted(m, offset)),
        Event::MouseUp(m) => Event::MouseUp(shifted(m, offset)),
        Event::MouseMove(m) => Event::MouseMove(shifted(m, offset)),
        Event::MouseWheel(m) => Event::MouseWheel(shifted(m, offset)),
        _ => event,
    }
}

/// The constraints the child is laid out under: no minimum, the container's
/// maximum width, and unbounded height.
pub open spec fn child_constraints(bc: BoxConstraints) -> BoxConstraints {
    BoxConstraints { min_width: 0, min_height: 0, max_width: bc.max_width, max_height: None }
}

/// The offset after a layout: lowered to the largest valid one if it exceeds it.
pub open spec fn settled_offset(offset: int, child_h: int, own_h: int) -> int {
    if max_offset(child_h, own_h) < offset {
        max_offset(child_h, own_h)
    } else {
        offset
    }
}

/// The intrinsic answer along one axis: 0 for a negative minimum, otherwise
/// the child's length capped at the maximum and then raised to the minimum.
pub open spec fn fit_intrinsic(len: int, min: int, max: Option<u32>) -> int {
    if min < 0 {
        0
    } else if cap(len, max) < min {
        min
    } else {
        cap(len, max)
    }
}

/// Moves a pointer event into child space.
fn shift_mouse(m: &MouseEvent, offset: u32) -> (r: MouseEvent)
    ensures
        r == shifted(*m, offset as int),
{
    let y = if m.pos.y > i64::MAX - offset as i64 {
        i64::MAX
    } else {
        m.pos.y + offset as i64
    };
    MouseEvent { pos: Point { x: m.pos.x, y }, ..*m }
}

/// The event that the child of a container scrolled by `offset` receives.
pub fn child_event(event: &Event, offset: u32) -> (r: Event)
    ensures
        r == child_event_spec(*event, offset as int),
{
    match event {
        Event::MouseDown(m) => Event::MouseDown(shift_mouse(m, offset)),
        Event::MouseUp(m) => Event::MouseUp(shift_mouse(m, offset)),
        Event::MouseMove(m) => Event::MouseMove(shift_mouse(m, offset)),
        Event::MouseWheel(m) => Event::MouseWheel(shift_mouse(m, offset)),
        _ => *event,
    }
}

/// Caps `len` at an optional maximum.
fn cap_length(len: i64, max: Option<u32>) -> (r: i64)
    ensures
        r == cap(len as int, max),
{
    match max {
        Some(m) => if len <= m as i64 { len } else { m as i64 },
        None => len,
    }
}

/// A vertically scrolling container around one child.
///
/// `offset` is how far the content is scrolled up, in pixels. A layout
/// brings it back into `[0, max_offset]` for the new child height.
pub struct ScrollView<W> {
    pub child: Pod<W>,
    pub offset: u32,
}

/// The container's wheel handling after the child has left `cx`: the new
/// offset, and the context with the handled flag and paint request set when
/// the offset moved.
pub open spec fn after_wheel<W>(sv: ScrollView<W>, own: Size, cx: EventCx, event: Event) -> (ScrollView<W>, EventCx) {
    let (o, h) = wheel_step(
        sv.offset as int,
        event,
        max_offset(sv.child.size.height as int, own.height as int),
        cx.handled,
    );
    (
        ScrollView { offset: o as u32, ..sv },
        EventCx { handled: h, needs_paint: cx.needs_paint || o != sv.offset, ..cx },
    )
}

impl<W: Widget> ScrollView<W> {
    /// A container showing `child` (identified by `id`) from its top.
    pub fn new(child: W, id: u64) -> (r: Self)
        ensures
            r.child == Pod::new_spec(child, id),
            r.offset == 0,
    {
        ScrollView { child: Pod::new(child, id), offset: 0 }
    }

    pub fn child_mut(&mut self) -> (r: &mut Pod<W>)
        ensures
            *r == old(self).child,
            final(self).child == *final(r),
            final(self).offset == old(self).offset,
    {
        &mut self.child
    }

    pub fn child(&self) -> (r: &Pod<W>)
        ensures
            *r == self.child,
    {
        &self.child
    }

    pub fn offset(&self) -> (r: u32)
        ensures
            r == self.offset,
    {
        self.offset
    }

    /// When the container's own node is not asked for, its accessibility
    /// pass exports exactly its child's nodes and no container node.
    pub proof fn lemma_unrequested_exports_child_only(&self, id: u64)
        ensures
            self.access_nodes(id, false) == self.child.access_nodes(),
    {
        assert(self.access_nodes(id, false) =~= self.child.access_nodes());
    }

    /// A state that a layout under `bc` leaves behind is a fixed point of
    /// layout under `bc`: laying out again reports the same size and leaves
    /// the offset and the cached child size as they were.
    pub proof fn lemma_layout_idempotent(&self, bc: BoxConstraints)
        requires
            self.child.widget.layout_size(child_constraints(bc)) == self.child.size,
            self.offset <= max_offset(
                self.child.size.height as int,
                capped(self.child.size, bc).height as int,
            ),
        ensures
            self.layout_size(bc) == capped(self.child.size, bc),
            self.laid_out(bc).offset == self.offset,
            self.laid_out(bc).child.size == self.child.size,
    {
    }

    /// A wheel movement of three lines that the child leaves unhandled moves
    /// the offset to `clamp(offset - 3 * LINE_HEIGHT, 0, max_offset)` and is
    /// handled exactly when that differs from the offset; at offset 0 it
    /// leaves the offset at 0 and the event unhandled.
    pub proof fn lemma_three_line_wheel(&self, cx: EventCx, m: MouseEvent, x: i64)
        requires
            m.wheel_delta == Some(ScrollDelta::Lines(x, 3)),
            !self.child.on_event(cx, child_event_spec(Event::MouseWheel(m), self.offset as int)).1.handled,
        ensures
            ({
                let (after, acx) = self.on_event(cx, Event::MouseWheel(m));
                let t = clamp(
                    self.offset - 3 * LINE_HEIGHT,
                    0,
                    max_offset(self.child.size.height as int, cx.size.height as int),
                );
                &&& after.offset == t
                &&& acx.handled == (t != self.offset)
                &&& self.offset == 0 ==> after.offset == 0 && !acx.handled
            }),
    {
    }

    /// The event as the child sees it, then the container's wheel handling:
    /// the child handling a wheel event first leaves the offset alone.
    pub proof fn lemma_handled_by_child_keeps_offset(&self, cx: EventCx, m: MouseEvent)
        ensures
            ({
                let ev = Event::MouseWheel(m);
                let ccx = self.child.on_event(cx, child_event_spec(ev, self.offset as int)).1;
                ccx.handled ==> self.on_event(cx, ev).0.offset == self.offset
                    && self.on_event(cx, ev).1.handled
            }),
    {
    }

    /// The container's wheel handling, run after the child has seen `event`:
    /// unless the event is already handled, a wheel event moves the offset
    /// within `[0, max_offset]`; a move marks the event handled and asks for paint.
    pub fn handle_wheel(&mut self, cx: &mut EventCx, event: &Event)
        ensures
            (*final(self), *final(cx)) == after_wheel(*old(self), old(cx).size, *old(cx), *event),
    {
        if !cx.is_handled() {
            if let Event::MouseWheel(m) = event {
                let child_h = self.child.size().height;
                let own_h = cx.size().height;
                let max_off: u32 = if child_h > own_h { child_h - own_h } else { 0 };
                let y_delta: i128 = match m.wheel_delta {
                    Some(ScrollDelta::Precise(_, y)) => -(y as i128),
                    Some(ScrollDelta::Lines(_, y)) => {
                        let lines: i128 = -(y as i128);
                        proof {
                            assert(-0x40_0000_0000_0000_0000 <= lines * LINE_HEIGHT <= 0x40_0000_0000_0000_0000)
                                by (nonlinear_arith)
                                requires
                                    -0x8000_0000_0000_0000 <= lines <= 0x8000_0000_0000_0000,
                                    LINE_HEIGHT == 53,
                            ;
                        }
                        lines * (LINE_HEIGHT as i128)
                    },
                    None => 0,
                };
                let target: i128 = self.offset as i128 + y_delta;
                let new_offset: u32 = if target < 0 {
                    0
                } else if target > max_off as i128 {
                    max_off
                } else {
                    target as u32
                };
                if new_offset != self.offset {
                    self.offset = new_offset;
                    cx.set_handled(true);
                    cx.request_paint();
                }
            }
        }
    }
}

impl<W: Widget> Widget for ScrollView<W> {
    /// The child gets the event in its own space; then, if it left a wheel
    /// event unhandled, the container scrolls.
    open spec fn on_event(&self, cx: EventCx, event: Event) -> (Self, EventCx) {
        let (child, ccx) = self.child.on_event(cx, child_event_spec(event, self.offset as int));
        after_wheel(ScrollView { child, ..*self }, cx.size, ccx, event)
    }

    open spec fn on_lifecycle(&self, cx: LifeCycleCx, event: LifeCycle) -> (Self, LifeCycleCx) {
        let (child, c) = self.child.on_lifecycle(cx, event);
        (ScrollView { child, ..*self }, c)
    }

    open spec fn on_update(&self, cx: UpdateCx) -> (Self, UpdateCx) {
        let (child, c) = self.child.on_update(cx);
        (ScrollView { child, ..*self }, c)
    }

    /// The child's size under the child constraints, capped at the maxima.
    open spec fn layout_size(&self, bc: BoxConstraints) -> Size {
        capped(self.child.widget.layout_size(child_constraints(bc)), bc)
    }

    /// The child laid out under the child constraints, and the offset settled
    /// for the new heights.
    open spec fn laid_out(&self, bc: BoxConstraints) -> Self {
        let child = self.child.laid_out(child_constraints(bc));
        ScrollView {
            child,
            offset: settled_offset(
                self.offset as int,
                child.size.height as int,
                self.layout_size(bc).height as int,
            ) as u32,
        }
    }

    open spec fn intrinsic(&self, axis: Axis, bc: BoxConstraints) -> int {
        match axis {
            Axis::Horizontal => fit_intrinsic(
                self.child.widget.intrinsic(axis, bc.unbound_max_height_spec()),
                bc.min_width as int,
                bc.max_width,
            ),
            Axis::Vertical => fit_intrinsic(
                self.child.widget.intrinsic(axis, bc.unbound_max_height_spec()),
                bc.min_height as int,
                bc.max_height,
            ),
        }
    }

    /// The child's nodes, then, if asked for, one container node whose only
    /// child is the child's identifier.
    open spec fn access_nodes(&self, id: u64, requested: bool) -> Seq<(u64, Role, Seq<u64>)> {
        self.child.access_nodes() + if requested {
            seq![(id, Role::GenericContainer, seq![self.child.id])]
        } else {
            Seq::empty()
        }
    }

    open spec fn after_access(&self) -> Self {
        ScrollView { child: self.child.after_access(), ..*self }
    }

    /// A clip to the container's own size around the child's drawing moved
    /// up by the offset.
    open spec fn painted(&self, size: Size) -> Seq<SceneOp> {
        seq![SceneOp::PushClip(size), SceneOp::PushTranslate(0, (-self.offset) as i64)]
            + self.child.painted() + seq![SceneOp::PopTranslate, SceneOp::PopClip]
    }

    fn event(&mut self, cx: &mut EventCx, event: &Event) {
        let child_event = child_event(event, self.offset);
        self.child.event(cx, &child_event);
        self.handle_wheel(cx, event);
    }

    fn lifecycle(&mut self, cx: &mut LifeCycleCx, event: &LifeCycle) {
        self.child.lifecycle(cx, event);
    }

    fn update(&mut self, cx: &mut UpdateCx) {
        self.child.update(cx);
    }

    fn compute_max_intrinsic(&self, axis: Axis, bc: &BoxConstraints) -> (r: i64) {
        match axis {
            Axis::Horizontal => {
                if bc.min_width < 0 {
                    0
                } else {
                    let length = self.child.compute_max_intrinsic(axis, &bc.unbound_max_height());
                    let capped_len = cap_length(length, bc.max_width);
                    if capped_len < bc.min_width { bc.min_width } else { capped_len }
                }
            },
            Axis::Vertical => {
                if bc.min_height < 0 {
                    0
                } else {
                    let length = self.child.compute_max_intrinsic(axis, &bc.unbound_max_height());
                    let capped_len = cap_length(length, bc.max_height);
                    if capped_len < bc.min_height { bc.min_height } else { capped_len }
                }
            },
        }
    }

    fn layout(&mut self, cx: &mut LayoutCx, bc: &BoxConstraints) -> (r: Size)
        ensures
            final(cx).needs_paint,
            0 <= final(self).offset <= max_offset(final(self).child.size.height as int, r.height as int),
    {
        cx.request_paint();
        let cbc = BoxConstraints { min_width: 0, min_height: 0, max_width: bc.max_width, max_height: None };
        let child_size = self.child.layout(cx, &cbc);
        let size = bc.cap_size(child_size);
        let max_off: u32 = if child_size.height > size.height { child_size.height - size.height } else { 0 };
        if max_off < self.offset {
            self.offset = max_off;
        }
        size
    }

    fn accessibility(&mut self, cx: &mut AccessCx) {
        self.child.accessibility(cx);
        if cx.is_requested() {
            let mut children: Vec<u64> = Vec::new();
            children.push(self.child.id());
            let node = AccessNode { id: cx.id, role: Role::GenericContainer, children };
            cx.push_node(node);
            proof {
                assert(node@.2 =~= seq![old(self).child.id]);
            }
        }
        proof {
            assert(cx@ =~= old(cx)@ + old(self).access_nodes(old(cx).id, old(cx).requested));
        }
    }

    fn paint(&self, cx: &PaintCx, scene: &mut Scene) {
        scene.push(SceneOp::PushClip(cx.size));
        scene.push(SceneOp::PushTranslate(0, -(self.offset as i64)));
        self.child.paint(scene);
        scene.push(SceneOp::PopTranslate);
        scene.push(SceneOp::PopClip);
        proof {
            assert(scene@ =~= old(scene)@ + self.painted(cx.size));
        }
    }
}

} // verus!
