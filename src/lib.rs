//! A retained-mode widget core: geometry, the widget contract, an owning
//! pod around a child widget, and a vertically scrolling container.

pub mod geometry;
pub mod app_main;
pub mod widget;
pub mod block;
pub mod scroll_view;
pub mod properties;

pub use app_main::AppLauncher;
pub use block::Block;
pub use geometry::{Axis, BoxConstraints, Point, Size};
pub use properties::{CornerRadius, PropertyKind};
pub use scroll_view::{ScrollView, LINE_HEIGHT};
pub use widget::{
    AccessCx, AccessNode, Action, ActionRequest, Event, EventCx, LayoutCx, LifeCycle, LifeCycleCx,
    MouseEvent, PaintCx, Pod, Role, Scene, SceneOp, ScrollDelta, UpdateCx, Widget,
};
