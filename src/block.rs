//! A leaf widget: a filled rectangle of a chosen natural size.
use vstd::prelude::*;
use crate::geometry::{Axis, BoxConstraints, Point, Size, cap, capped, cap_len};
use crate::widget::{
    AccessCx, AccessNode, Event, EventCx, LayoutCx, LifeCycle, LifeCycleCx, PaintCx, Role, Scene,
    SceneOp, UpdateCx, Widget,
};

verus! {

/// A filled rectangle that wants its natural size, remembers where the
/// pointer last was in its own space, and may consume wheel events.
pub struct Block {
    pub natural: Size,
    pub color: u32,
    pub consumes_wheel: bool,
    pub last_pointer: Option<Point>,
    /// A size change that takes effect at the next update.
    pub pending: Option<Size>,
}

impl Block {
    pub fn new(natural: Size, color: u32) -> (r: Block)
        ensures
            r.natural == natural,
            r.color == color,
            !r.consumes_wheel,
            r.last_pointer is None,
            r.pending is None,
    {
        Block { natural, color, consumes_wheel: false, last_pointer: None, pending: None }
    }

    /// The same block, marking every wheel event it receives as handled.
    pub fn consuming_wheel(self) -> (r: Block)
        ensures
            r == (Block { consumes_wheel: true, ..self }),
    {
        Block { consumes_wheel: true, ..self }
    }

    /// Schedules a new natural size for the next update.
    pub fn set_size(&mut self, size: Size)
        ensures
            *final(self) == (Block { pending: Some(size), ..*old(self) }),
    {
        self.pending = Some(size);
    }
}

/// Where a pointer event puts the pointer; `None` for other events.
pub open spec fn pointer_of(event: Event) -> Option<Point> {
    match event {
        Event::MouseDown(m) => Some(m.pos),
        Event::MouseUp(m) => Some(m.pos),
        Event::MouseMove(m) => Some(m.pos),
        Event::MouseWheel(m) => Some(m.pos),
        _ => None,
    }
}

impl Widget for Block {
    /// Records the pointer position; a wheel event is marked handled when
    /// the block consumes wheels.
    open spec fn on_event(&self, cx: EventCx, event: Event) -> (Self, EventCx) {
        let last = match pointer_of(event) {
            Some(p) => Some(p),
            None => self.last_pointer,
        };
        (
            Block { last_pointer: last, ..*self },
            EventCx { handled: cx.handled || (self.consumes_wheel && event is MouseWheel), ..cx },
        )
    }

    open spec fn on_lifecycle(&self, cx: LifeCycleCx, event: LifeCycle) -> (Self, LifeCycleCx) {
        (*self, cx)
    }

    /// A pending size becomes the natural size and asks for layout.
    open spec fn on_update(&self, cx: UpdateCx) -> (Self, UpdateCx) {
        match self.pending {
            Some(s) => (Block { natural: s, pending: None, ..*self }, UpdateCx { needs_layout: true, ..cx }),
            None => (*self, cx),
        }
    }

    open spec fn layout_size(&self, bc: BoxConstraints) -> Size {
        capped(self.natural, bc)
    }

    open spec fn laid_out(&self, bc: BoxConstraints) -> Self {
        *self
    }

    open spec fn intrinsic(&self, axis: Axis, bc: BoxConstraints) -> int {
        match axis {
            Axis::Horizontal => cap(self.natural.width as int, bc.max_width),
            Axis::Vertical => cap(self.natural.height as int, bc.max_height),
        }
    }

    open spec fn access_nodes(&self, id: u64, requested: bool) -> Seq<(u64, Role, Seq<u64>)> {
        if requested {
            seq![(id, Role::Unknown, Seq::<u64>::empty())]
        } else {
            Seq::empty()
        }
    }

    open spec fn after_access(&self) -> Self {
        *self
    }

    open spec fn painted(&self, size: Size) -> Seq<SceneOp> {
        seq![SceneOp::FillRect(size, self.color)]
    }

    fn event(&mut self, cx: &mut EventCx, event: &Event) {
        match event {
            Event::MouseDown(m) | Event::MouseUp(m) | Event::MouseMove(m) => {
                self.last_pointer = Some(m.pos);
            },
            Event::MouseWheel(m) => {
                self.last_pointer = Some(m.pos);
                if self.consumes_wheel {
                    cx.set_handled(true);
                }
            },
            _ => {},
        }
    }

    fn lifecycle(&mut self, cx: &mut LifeCycleCx, event: &LifeCycle) {
    }

    fn update(&mut self, cx: &mut UpdateCx) {
        if let Some(s) = self.pending {
            self.natural = s;
            self.pending = None;
            cx.request_layout();
        }
    }

    fn compute_max_intrinsic(&self, axis: Axis, bc: &BoxConstraints) -> (r: i64) {
        match axis {
            Axis::Horizontal => cap_len(self.natural.width, bc.max_width) as i64,
            Axis::Vertical => cap_len(self.natural.height, bc.max_height) as i64,
        }
    }

    fn layout(&mut self, cx: &mut LayoutCx, bc: &BoxConstraints) -> (r: Size) {
        bc.cap_size(self.natural)
    }

    fn accessibility(&mut self, cx: &mut AccessCx) {
        if cx.is_requested() {
            let node = AccessNode { id: cx.id, role: Role::Unknown, children: Vec::new() };
            cx.push_node(node);
            proof {
                assert(node@.2 =~= Seq::<u64>::empty());
            }
        }
        proof {
            assert(cx@ =~= old(cx)@ + self.access_nodes(old(cx).id, old(cx).requested));
        }
    }

    fn paint(&self, cx: &PaintCx, scene: &mut Scene) {
        scene.push(SceneOp::FillRect(cx.size, self.color));
        proof {
            assert(scene@ =~= old(scene)@ + self.painted(cx.size));
        }
    }
}

} // verus!
