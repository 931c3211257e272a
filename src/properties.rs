//! Properties that can be attached to widgets.
use vstd::prelude::*;
use crate::widget::UpdateCx;

verus! {

/// The kinds of property a widget can be told have changed.
#[derive(Clone, Copy, Debug, PartialEq, Eq, Structural)]
pub enum PropertyKind {
    CornerRadius,
    Other,
}

/// The radius of a widget's box corners, in pixels.
#[derive(Clone, Copy, Debug, PartialEq, Eq, Structural)]
pub struct CornerRadius {
    pub radius: u32,
}

impl CornerRadius {
    /// A change of the corner radius needs a new layout; other changes are
    /// not this property's concern.
    pub fn prop_changed(cx: &mut UpdateCx, property_type: PropertyKind)
        ensures
            *final(cx) == if property_type == PropertyKind::CornerRadius {
                UpdateCx { needs_layout: true, ..*old(cx) }
            } else {
                *old(cx)
            },
    {
        if property_type != PropertyKind::CornerRadius {
            return;
        }
        cx.request_layout();
    }
}

} // verus!
