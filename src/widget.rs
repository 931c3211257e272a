//! The widget contract, the per-phase contexts, and the pod that owns a child.
use vstd::prelude::*;
use crate::geometry::{Axis, BoxConstraints, Point, Size};

verus! {

/// How far a wheel moved: in pixels, or in lines of text.
#[derive(Clone, Copy, Debug, PartialEq, Eq, Structural)]
pub enum ScrollDelta {
    Precise(i64, i64),
    Lines(i64, i64),
}

/// The state of the pointer when an event was produced.
#[derive(Clone, Copy, Debug, PartialEq, Eq, Structural)]
pub struct MouseEvent {
    /// Where the pointer is, in the receiving widget's parent space.
    pub pos: Point,
    pub wheel_delta: Option<ScrollDelta>,
}

impl MouseEvent {
    pub fn new(pos: Point, wheel_delta: Option<ScrollDelta>) -> (r: MouseEvent)
        ensures
            r.pos == pos,
            r.wheel_delta == wheel_delta,
    {
        MouseEvent { pos, wheel_delta }
    }
}

/// An action that an assistive technology asks a node to perform.
#[derive(Clone, Copy, Debug, PartialEq, Eq, Structural)]
pub enum Action {
    Default,
    Focus,
    ScrollUp,
    ScrollDown,
}

/// An accessibility action aimed at the node with identifier `target`.
#[derive(Clone, Copy, Debug, PartialEq, Eq, Structural)]
pub struct ActionRequest {
    pub target: u64,
    pub action: Action,
}

/// An input occurrence routed through the widget tree.
#[derive(Clone, Copy, Debug, PartialEq, Eq, Structural)]
pub enum Event {
    MouseDown(MouseEvent),
    MouseUp(MouseEvent),
    MouseMove(MouseEvent),
    MouseWheel(MouseEvent),
    MouseLeft,
    TargetedAccessibilityAction(ActionRequest),
}

/// Structural notifications about the tree.
#[derive(Clone, Copy, Debug, PartialEq, Eq, Structural)]
pub enum LifeCycle {
    WidgetAdded,
    TreeUpdate,
}

/// Accessibility roles of the nodes this crate's widgets export.
#[derive(Clone, Copy, Debug, PartialEq, Eq, Structural)]
pub enum Role {
    GenericContainer,
    Unknown,
}

/// One exported accessibility node: identifier, role, and the identifiers of its children.
#[derive(Debug)]
pub struct AccessNode {
    pub id: u64,
    pub role: Role,
    pub children: Vec<u64>,
}

impl AccessNode {
    pub open spec fn view(&self) -> (u64, Role, Seq<u64>) {
        (self.id, self.role, self.children@)
    }
}

/// One drawing command of a scene.
#[derive(Clone, Copy, Debug, PartialEq, Eq, Structural)]
pub enum SceneOp {
    /// Start clipping to the rectangle from the origin with this size.
    PushClip(Size),
    /// Start drawing moved by this vector.
    PushTranslate(i64, i64),
    /// End the innermost translation.
    PopTranslate,
    /// End the innermost clip.
    PopClip,
    /// Fill the rectangle from the origin with this size in an RGBA colour.
    FillRect(Size, u32),
}

/// A display list that widgets append to while painting.
pub struct Scene {
    pub ops: Vec<SceneOp>,
}

impl Scene {
    pub open spec fn view(&self) -> Seq<SceneOp> {
        self.ops@
    }

    pub fn new() -> (r: Scene)
        ensures
            r@ == Seq::<SceneOp>::empty(),
    {
        Scene { ops: Vec::new() }
    }

    pub fn push(&mut self, op: SceneOp)
        ensures
            final(self)@ == old(self)@.push(op),
    {
        self.ops.push(op);
    }
}

/// What an event traversal may do: read its widget's size, mark the event
/// handled, and ask for paint or layout.
pub struct EventCx {
    pub size: Size,
    pub handled: bool,
    pub needs_paint: bool,
    pub needs_layout: bool,
}

impl EventCx {
    /// A context for a widget of the given size, with nothing handled or requested.
    pub fn new(size: Size) -> (r: EventCx)
        ensures
            r.size == size,
            !r.handled,
            !r.needs_paint,
            !r.needs_layout,
    {
        EventCx { size, handled: false, needs_paint: false, needs_layout: false }
    }

    pub fn size(&self) -> (r: Size)
        ensures
            r == self.size,
    {
        self.size
    }

    pub fn is_handled(&self) -> (r: bool)
        ensures
            r == self.handled,
    {
        self.handled
    }

    pub fn set_handled(&mut self, handled: bool)
        ensures
            *final(self) == (EventCx { handled, ..*old(self) }),
    {
        self.handled = handled;
    }

    pub fn request_paint(&mut self)
        ensures
            *final(self) == (EventCx { needs_paint: true, ..*old(self) }),
    {
        self.needs_paint = true;
    }

    pub fn request_layout(&mut self)
        ensures
            *final(self) == (EventCx { needs_layout: true, ..*old(self) }),
    {
        self.needs_layout = true;
    }
}

/// What a lifecycle traversal may do: ask for layout.
pub struct LifeCycleCx {
    pub needs_layout: bool,
}

impl LifeCycleCx {
    pub fn new() -> (r: LifeCycleCx)
        ensures
            !r.needs_layout,
    {
        LifeCycleCx { needs_layout: false }
    }

    pub fn request_layout(&mut self)
        ensures
            final(self).needs_layout,
    {
        self.needs_layout = true;
    }
}

/// What an update traversal may do: ask for layout or paint.
pub struct UpdateCx {
    pub needs_layout: bool,
    pub needs_paint: bool,
}

impl UpdateCx {
    pub fn new() -> (r: UpdateCx)
        ensures
            !r.needs_layout,
            !r.needs_paint,
    {
        UpdateCx { needs_layout: false, needs_paint: false }
    }

    pub fn request_layout(&mut self)
        ensures
            *final(self) == (UpdateCx { needs_layout: true, ..*old(self) }),
    {
        self.needs_layout = true;
    }
}

/// What a layout traversal may do: ask for paint.
pub struct LayoutCx {
    pub needs_paint: bool,
}

impl LayoutCx {
    pub fn new() -> (r: LayoutCx)
        ensures
            !r.needs_paint,
    {
        LayoutCx { needs_paint: false }
    }

    pub fn request_paint(&mut self)
        ensures
            final(self).needs_paint,
    {
        self.needs_paint = true;
    }
}

/// What an accessibility traversal may do: learn whether the current widget's
/// node was asked for, and push nodes.
pub struct AccessCx {
    /// Identifier of the widget being visited.
    pub id: u64,
    /// Whether that widget's own node was asked for.
    pub requested: bool,
    pub nodes: Vec<AccessNode>,
}

/// The exported nodes, each as identifier, role and child identifiers.
pub open spec fn nodes_view(nodes: Seq<AccessNode>) -> Seq<(u64, Role, Seq<u64>)> {
    nodes.map_values(|n: AccessNode| n@)
}

impl AccessCx {
    /// A context for the widget `id`, with no node exported yet.
    pub fn new(id: u64, requested: bool) -> (r: AccessCx)
        ensures
            r.id == id,
            r.requested == requested,
            r.nodes@ == Seq::<AccessNode>::empty(),
    {
        AccessCx { id, requested, nodes: Vec::new() }
    }

    pub open spec fn view(&self) -> Seq<(u64, Role, Seq<u64>)> {
        nodes_view(self.nodes@)
    }

    pub fn is_requested(&self) -> (r: bool)
        ensures
            r == self.requested,
    {
        self.requested
    }

    pub fn push_node(&mut self, node: AccessNode)
        ensures
            final(self).id == old(self).id,
            final(self).requested == old(self).requested,
            final(self)@ == old(self)@.push(node@),
    {
        self.nodes.push(node);
        proof {
            assert(nodes_view(self.nodes@) =~= nodes_view(old(self).nodes@).push(node@));
        }
    }
}

/// A paint traversal sees the size of the widget being painted.
pub struct PaintCx {
    pub size: Size,
}

/// The contract every node of the tree implements.
///
/// The spec functions describe each phase as a function of the widget's
/// state, so that a parent's contract can be stated through its child's.
pub trait Widget: Sized {
    /// The widget and event context after `event`.
    spec fn on_event(&self, cx: EventCx, event: Event) -> (Self, EventCx);

    /// The widget and context after `lifecycle`.
    spec fn on_lifecycle(&self, cx: LifeCycleCx, event: LifeCycle) -> (Self, LifeCycleCx);

    /// The widget and context after `update`.
    spec fn on_update(&self, cx: UpdateCx) -> (Self, UpdateCx);

    /// The size `layout` reports under `bc`.
    spec fn layout_size(&self, bc: BoxConstraints) -> Size;

    /// The widget after `layout` under `bc`.
    spec fn laid_out(&self, bc: BoxConstraints) -> Self;

    /// The answer of `compute_max_intrinsic`.
    spec fn intrinsic(&self, axis: Axis, bc: BoxConstraints) -> int;

    /// The nodes `accessibility` exports when visited as widget `id`, whose
    /// own node was or was not asked for.
    spec fn access_nodes(&self, id: u64, requested: bool) -> Seq<(u64, Role, Seq<u64>)>;

    /// The widget after `accessibility`.
    spec fn after_access(&self) -> Self;

    /// The commands `paint` appends at the given own size.
    spec fn painted(&self, size: Size) -> Seq<SceneOp>;

    /// Routes an event to this widget and its children; the context keeps
    /// the widget's size.
    fn event(&mut self, cx: &mut EventCx, event: &Event)
        ensures
            (*final(self), *final(cx)) == old(self).on_event(*old(cx), *event),
            final(cx).size == old(cx).size,
    ;

    /// Forwards a structural notification.
    fn lifecycle(&mut self, cx: &mut LifeCycleCx, event: &LifeCycle)
        ensures
            (*final(self), *final(cx)) == old(self).on_lifecycle(*old(cx), *event),
    ;

    /// Applies pending changes before the next layout.
    fn update(&mut self, cx: &mut UpdateCx)
        ensures
            (*final(self), *final(cx)) == old(self).on_update(*old(cx)),
    ;

    /// The length this widget wants along `axis` under `bc`; no side effects.
    fn compute_max_intrinsic(&self, axis: Axis, bc: &BoxConstraints) -> (r: i64)
        ensures
            r == self.intrinsic(axis, *bc),
    ;

    /// Sizes this widget; laying out again under the same constraints gives
    /// the same size.
    fn layout(&mut self, cx: &mut LayoutCx, bc: &BoxConstraints) -> (r: Size)
        ensures
            r == old(self).layout_size(*bc),
            *final(self) == old(self).laid_out(*bc),
            final(self).layout_size(*bc) == r,
            old(cx).needs_paint ==> final(cx).needs_paint,
    ;

    /// Exports this widget's accessibility nodes, children first.
    fn accessibility(&mut self, cx: &mut AccessCx)
        ensures
            final(cx).id == old(cx).id,
            final(cx).requested == old(cx).requested,
            final(cx)@ == old(cx)@ + old(self).access_nodes(old(cx).id, old(cx).requested),
            *final(self) == old(self).after_access(),
    ;

    /// Appends this widget's drawing to `scene`.
    fn paint(&self, cx: &PaintCx, scene: &mut Scene)
        ensures
            final(scene)@ == old(scene)@ + self.painted(cx.size),
    ;
}

/// The exclusive owner of one child widget, with its identifier, the size of
/// its last layout, and whether its accessibility node is wanted.
pub struct Pod<W> {
    pub widget: W,
    pub id: u64,
    pub size: Size,
    pub access_requested: bool,
}

impl<W: Widget> Pod<W> {
    pub open spec fn new_spec(widget: W, id: u64) -> Self {
        Pod { widget, id, size: Size { width: 0, height: 0 }, access_requested: true }
    }

    /// A pod for a widget not yet laid out, whose node is wanted.
    pub fn new(widget: W, id: u64) -> (r: Self)
        ensures
            r == Self::new_spec(widget, id),
    {
        Pod { widget, id, size: Size { width: 0, height: 0 }, access_requested: true }
    }

    pub fn id(&self) -> (r: u64)
        ensures
            r == self.id,
    {
        self.id
    }

    pub fn size(&self) -> (r: Size)
        ensures
            r == self.size,
    {
        self.size
    }

    /// Asks for this child's node in the next accessibility pass.
    pub fn request_accessibility(&mut self)
        ensures
            *final(self) == (Pod { access_requested: true, ..*old(self) }),
    {
        self.access_requested = true;
    }

    /// The pod and context after delivering `event`: the child sees its own
    /// size, the caller's size is kept.
    pub open spec fn on_event(&self, cx: EventCx, event: Event) -> (Self, EventCx) {
        let (w, c) = self.widget.on_event(EventCx { size: self.size, ..cx }, event);
        (Pod { widget: w, ..*self }, EventCx { size: cx.size, ..c })
    }

    pub open spec fn on_lifecycle(&self, cx: LifeCycleCx, event: LifeCycle) -> (Self, LifeCycleCx) {
        let (w, c) = self.widget.on_lifecycle(cx, event);
        (Pod { widget: w, ..*self }, c)
    }

    pub open spec fn on_update(&self, cx: UpdateCx) -> (Self, UpdateCx) {
        let (w, c) = self.widget.on_update(cx);
        (Pod { widget: w, ..*self }, c)
    }

    /// The pod after a layout under `bc`, caching the reported size.
    pub open spec fn laid_out(&self, bc: BoxConstraints) -> Self {
        Pod { widget: self.widget.laid_out(bc), size: self.widget.layout_size(bc), ..*self }
    }

    /// What the child exports in an accessibility pass.
    pub open spec fn access_nodes(&self) -> Seq<(u64, Role, Seq<u64>)> {
        self.widget.access_nodes(self.id, self.access_requested)
    }

    /// The pod after an accessibility pass: its request is consumed.
    pub open spec fn after_access(&self) -> Self {
        Pod { widget: self.widget.after_access(), access_requested: false, ..*self }
    }

    /// What the child draws at its last layout size.
    pub open spec fn painted(&self) -> Seq<SceneOp> {
        self.widget.painted(self.size)
    }

    /// Delivers an event to the child, which sees its own size in `cx`.
    pub fn event(&mut self, cx: &mut EventCx, event: &Event)
        ensures
            (*final(self), *final(cx)) == old(self).on_event(*old(cx), *event),
    {
        let outer = cx.size;
        cx.size = self.size;
        self.widget.event(cx, event);
        cx.size = outer;
    }

    pub fn lifecycle(&mut self, cx: &mut LifeCycleCx, event: &LifeCycle)
        ensures
            (*final(self), *final(cx)) == old(self).on_lifecycle(*old(cx), *event),
    {
        self.widget.lifecycle(cx, event);
    }

    pub fn update(&mut self, cx: &mut UpdateCx)
        ensures
            (*final(self), *final(cx)) == old(self).on_update(*old(cx)),
    {
        self.widget.update(cx);
    }

    pub fn compute_max_intrinsic(&self, axis: Axis, bc: &BoxConstraints) -> (r: i64)
        ensures
            r == self.widget.intrinsic(axis, *bc),
    {
        self.widget.compute_max_intrinsic(axis, bc)
    }

    /// Lays out the child and caches the size it reported.
    pub fn layout(&mut self, cx: &mut LayoutCx, bc: &BoxConstraints) -> (r: Size)
        ensures
            r == old(self).widget.layout_size(*bc),
            *final(self) == old(self).laid_out(*bc),
            final(self).size == r,
            final(self).widget.layout_size(*bc) == r,
            old(cx).needs_paint ==> final(cx).needs_paint,
    {
        let size = self.widget.layout(cx, bc);
        self.size = size;
        size
    }

    /// Exports the child's nodes, then clears the request for its own node.
    pub fn accessibility(&mut self, cx: &mut AccessCx)
        ensures
            final(cx).id == old(cx).id,
            final(cx).requested == old(cx).requested,
            final(cx)@ == old(cx)@ + old(self).access_nodes(),
            *final(self) == old(self).after_access(),
    {
        let outer_id = cx.id;
        let outer_requested = cx.requested;
        cx.id = self.id;
        cx.requested = self.access_requested;
        self.widget.accessibility(cx);
        cx.id = outer_id;
        cx.requested = outer_requested;
        self.access_requested = false;
    }

    /// Appends the child's drawing, in the child's own size.
    pub fn paint(&self, scene: &mut Scene)
        ensures
            final(scene)@ == old(scene)@ + self.painted(),
    {
        let cx = PaintCx { size: self.size };
        self.widget.paint(&cx, scene);
    }
}

} // verus!
