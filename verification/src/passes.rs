//! What a widget asks of the passes that lay the tree out, paint it and
//! describe it to assistive technology.
//!
//! The passes themselves are not part of this library. A widget decides which
//! steps are taken and in which order; whoever runs a pass carries them out
//! with its own geometry and drawing surface.

use vstd::prelude::*;
use crate::id::WidgetId;
use crate::style::{Color, Length};

verus! {

/// One step of laying a widget out inside the size that it was given.
#[derive(Clone, Copy, PartialEq, Eq, Structural, Debug)]
pub enum LayoutStep {
    /// Lay the child out in the whole size.
    RunLayout(WidgetId),
    /// Place the child at the origin.
    PlaceAtOrigin(WidgetId),
    /// Take the baseline offset of the child as the widget's own.
    AdoptBaseline(WidgetId),
    /// Clip what is painted to the bounds of the widget.
    ClipToBounds,
    /// Paint without a clip.
    ClearClip,
}

/// One step of painting what lies behind the children of a widget.
#[derive(Clone, Copy, PartialEq, Eq, Structural, Debug)]
pub enum PaintStep {
    /// The box shadow, below everything else.
    BoxShadow,
    /// A blurred rounded rectangle over the border box, in `tint`.
    Blur { tint: Color, radius: Length },
    /// The border box filled with `tint`, not blurred.
    Fill { tint: Color },
    /// The background.
    Background,
    /// The border.
    Border,
}

/// The role of a widget as assistive technology sees it. Whoever fills the
/// accessibility tree gives each role its counterpart there.
#[derive(Clone, Copy, PartialEq, Eq, Structural, Debug)]
pub enum Role {
    /// A container that means nothing by itself.
    GenericContainer,
    /// A box that is checked or not.
    CheckBox,
}

} // verus!
