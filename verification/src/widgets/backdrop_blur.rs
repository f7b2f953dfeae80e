//! A container that paints a frosted-glass treatment behind its child.

use vstd::prelude::*;
use crate::element::{Element, MutateCtx, Pod, RegisterCtx, Widget, WidgetMut};
use crate::id::WidgetId;
use crate::invalidation::{Invalidation, Signal};
use crate::passes::{LayoutStep, PaintStep, Role};
use crate::style::{Color, Length};

verus! {

/// The bit pattern of 18.0, the blur radius of a new widget.
pub const DEFAULT_BLUR_RADIUS_BITS: u64 = 0x4032_0000_0000_0000;

/// A container that draws a frosted-glass blur treatment behind its child.
///
/// The child is laid out in the whole widget and painted on top.
#[derive(Debug, PartialEq, Eq)]
pub struct BackdropBlur {
    pub child: Box<Element>,
    pub blur_radius: Length,
    pub tint: Color,
    pub clip_content: bool,
}

impl BackdropBlur {
    /// What the widget paints behind its child, in order: the shadow, then
    /// the blur where the radius is positive, else the plain tint where it
    /// shows, then background and border.
    pub open spec fn paint_steps(self) -> Seq<PaintStep> {
        let treatment = if self.blur_radius.is_positive() {
            seq![PaintStep::Blur { tint: self.tint, radius: self.blur_radius }]
        } else if self.tint.is_visible() {
            seq![PaintStep::Fill { tint: self.tint }]
        } else {
            Seq::empty()
        };
        seq![PaintStep::BoxShadow] + treatment + seq![PaintStep::Background, PaintStep::Border]
    }

    /// How the widget is laid out: the child takes the whole size at the
    /// origin and gives its baseline, and the clip follows `clip_content`.
    pub open spec fn layout_steps(self) -> Seq<LayoutStep> {
        seq![
            LayoutStep::RunLayout(self.child.id),
            LayoutStep::PlaceAtOrigin(self.child.id),
            LayoutStep::AdoptBaseline(self.child.id),
            if self.clip_content {
                LayoutStep::ClipToBounds
            } else {
                LayoutStep::ClearClip
            },
        ]
    }

    /// Creates a backdrop blur container with a single child: radius 18,
    /// a white tint of alpha `0x24`, content clipped.
    pub fn new(child: Element) -> (widget: BackdropBlur)
        ensures
            widget == (BackdropBlur {
                child: Box::new(child),
                blur_radius: Length { bits: DEFAULT_BLUR_RADIUS_BITS },
                tint: Color { r: 0xff, g: 0xff, b: 0xff, a: 0x24 },
                clip_content: true,
            }),
    {
        BackdropBlur {
            child: Box::new(child),
            blur_radius: Length::from_bits(DEFAULT_BLUR_RADIUS_BITS),
            tint: Color::from_rgba8(0xff, 0xff, 0xff, 0x24),
            clip_content: true,
        }
    }

    /// Sets the blur radius, in logical pixels.
    pub fn blur_radius(self, blur_radius: Length) -> (widget: BackdropBlur)
        ensures
            widget == (BackdropBlur { blur_radius, ..self }),
    {
        let mut widget = self;
        widget.blur_radius = blur_radius;
        widget
    }

    /// Sets the tint color for the blur treatment.
    pub fn tint(self, tint: Color) -> (widget: BackdropBlur)
        ensures
            widget == (BackdropBlur { tint, ..self }),
    {
        let mut widget = self;
        widget.tint = tint;
        widget
    }

    /// Sets whether child painting should be clipped to this widget's bounds.
    pub fn clip_content(self, clip_content: bool) -> (widget: BackdropBlur)
        ensures
            widget == (BackdropBlur { clip_content, ..self }),
    {
        let mut widget = self;
        widget.clip_content = clip_content;
        widget
    }

    /// Replaces the child widget: the old child leaves the tree, and the
    /// change of structure is reported once.
    pub fn set_child(this: &mut WidgetMut<'_, Self>, child: Element)
        ensures
            final(this).id() == old(this).id(),
            final(this).now() == (BackdropBlur { child: Box::new(child), ..old(this).now() }),
            final(this).signals() == old(this).signals().push(
                Signal { target: old(this).id(), class: Invalidation::Structure },
            ),
            *final(final(this).widget) == *final(old(this).widget),
            *final(final(this).ctx.journal) == *final(old(this).ctx.journal),
    {
        this.widget.child = Box::new(child);
        this.ctx.children_changed();
    }

    /// Sets the blur radius, in logical pixels. A change is painted; the same
    /// radius again asks for nothing.
    pub fn set_blur_radius(this: &mut WidgetMut<'_, Self>, blur_radius: Length)
        ensures
            final(this).id() == old(this).id(),
            final(this).now() == (BackdropBlur { blur_radius, ..old(this).now() }),
            final(this).signals() == if old(this).now().blur_radius == blur_radius {
                old(this).signals()
            } else {
                old(this).signals().push(
                    Signal { target: old(this).id(), class: Invalidation::Render },
                )
            },
            *final(final(this).widget) == *final(old(this).widget),
            *final(final(this).ctx.journal) == *final(old(this).ctx.journal),
    {
        if this.widget.blur_radius != blur_radius {
            this.widget.blur_radius = blur_radius;
            this.ctx.request_render();
        }
    }

    /// Sets the blur tint color. A change is painted; the same tint again
    /// asks for nothing.
    pub fn set_tint(this: &mut WidgetMut<'_, Self>, tint: Color)
        ensures
            final(this).id() == old(this).id(),
            final(this).now() == (BackdropBlur { tint, ..old(this).now() }),
            final(this).signals() == if old(this).now().tint == tint {
                old(this).signals()
            } else {
                old(this).signals().push(
                    Signal { target: old(this).id(), class: Invalidation::Render },
                )
            },
            *final(final(this).widget) == *final(old(this).widget),
            *final(final(this).ctx.journal) == *final(old(this).ctx.journal),
    {
        if this.widget.tint != tint {
            this.widget.tint = tint;
            this.ctx.request_render();
        }
    }

    /// Sets whether child painting should be clipped to this widget's bounds.
    /// A change is laid out again; the same flag again asks for nothing.
    pub fn set_clip_content(this: &mut WidgetMut<'_, Self>, clip_content: bool)
        ensures
            final(this).id() == old(this).id(),
            final(this).now() == (BackdropBlur { clip_content, ..old(this).now() }),
            final(this).signals() == if old(this).now().clip_content == clip_content {
                old(this).signals()
            } else {
                old(this).signals().push(
                    Signal { target: old(this).id(), class: Invalidation::Layout },
                )
            },
            *final(final(this).widget) == *final(old(this).widget),
            *final(final(this).ctx.journal) == *final(old(this).ctx.journal),
    {
        if this.widget.clip_content != clip_content {
            this.widget.clip_content = clip_content;
            this.ctx.request_layout();
        }
    }

    /// Returns a handle on the child widget. What is done through it is done
    /// to the child inside this widget, and reported to the same journal.
    pub fn child_mut<'t>(this: &'t mut WidgetMut<'_, Self>) -> (child: WidgetMut<'t, Widget>)
        ensures
            child.id() == old(this).now().child.id,
            child.now() == old(this).now().child.widget,
            child.signals() == old(this).signals(),
            final(this).id() == old(this).id(),
            final(this).now() == (BackdropBlur {
                child: Box::new(
                    Pod { id: old(this).now().child.id, widget: *final(child.widget) },
                ),
                ..old(this).now()
            }),
            final(this).signals() == final(child.ctx.journal)@,
            *final(final(this).widget) == *final(old(this).widget),
            *final(final(this).ctx.journal) == *final(old(this).ctx.journal),
    {
        WidgetMut {
            ctx: MutateCtx { id: this.widget.child.id, journal: &mut *this.ctx.journal },
            widget: &mut this.widget.child.widget,
        }
    }

    /// Registers the child with the tree manager.
    pub fn register_children(&self, ctx: &mut RegisterCtx)
        ensures
            final(ctx).registered@ == old(ctx).registered@.push(self.child.id),
    {
        ctx.register_child(&self.child);
    }

    /// The steps of laying the widget out, in order.
    pub fn layout(&self) -> (steps: Vec<LayoutStep>)
        ensures
            steps@ == self.layout_steps(),
    {
        let child = self.child.id;
        let mut steps: Vec<LayoutStep> = Vec::new();
        steps.push(LayoutStep::RunLayout(child));
        steps.push(LayoutStep::PlaceAtOrigin(child));
        steps.push(LayoutStep::AdoptBaseline(child));
        if self.clip_content {
            steps.push(LayoutStep::ClipToBounds);
        } else {
            steps.push(LayoutStep::ClearClip);
        }
        assert(steps@ =~= self.layout_steps());
        steps
    }

    /// The steps of painting what lies behind the child, in order. The
    /// shadow stays below the blur treatment; background and border go on
    /// top of it.
    pub fn pre_paint(&self) -> (steps: Vec<PaintStep>)
        ensures
            steps@ == self.paint_steps(),
    {
        let mut steps: Vec<PaintStep> = Vec::new();
        steps.push(PaintStep::BoxShadow);
        if self.blur_radius.positive() {
            steps.push(PaintStep::Blur { tint: self.tint, radius: self.blur_radius });
        } else if self.tint.visible() {
            steps.push(PaintStep::Fill { tint: self.tint });
        }
        steps.push(PaintStep::Background);
        steps.push(PaintStep::Border);
        assert(steps@ =~= self.paint_steps());
        steps
    }

    /// The widget paints nothing over its child.
    pub fn paint(&self) -> (steps: Vec<PaintStep>)
        ensures
            steps@ == Seq::<PaintStep>::empty(),
    {
        Vec::new()
    }

    /// The role under which assistive technology sees the widget: that of
    /// a generic container.
    pub fn accessibility_role(&self) -> (role: Role)
        ensures
            role == Role::GenericContainer,
    {
        Role::GenericContainer
    }

    /// The identifier of the child.
    pub fn children_ids(&self) -> (ids: Vec<WidgetId>)
        ensures
            ids@ == seq![self.child.id],
    {
        let mut ids: Vec<WidgetId> = Vec::new();
        ids.push(self.child.id);
        ids
    }
}

impl Pod<BackdropBlur> {
    /// The element as one of any kind.
    pub open spec fn erase(self) -> Element {
        Pod { id: self.id, widget: Widget::BackdropBlur(self.widget) }
    }

    /// The element as one of any kind.
    pub fn erased(self) -> (element: Element)
        ensures
            element == self.erase(),
    {
        Pod { id: self.id, widget: Widget::BackdropBlur(self.widget) }
    }
}

} // verus!
