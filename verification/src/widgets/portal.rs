//! A container that shows its child through a scrollable viewport.

use vstd::prelude::*;
use crate::element::{Element, MutateCtx, Pod, RegisterCtx, Widget, WidgetMut};
use crate::id::WidgetId;
use crate::invalidation::{Invalidation, Signal};
use crate::passes::Role;

verus! {

/// A container that puts its child into a scrollable region.
#[derive(Debug, PartialEq, Eq)]
pub struct Portal {
    pub child: Box<Element>,
    pub constrain_horizontal: bool,
    pub constrain_vertical: bool,
    pub must_fill: bool,
    /// Whether the language of the application runs right to left: the
    /// vertical scrollbar then stands at the left side.
    pub right_to_left: bool,
}

impl Portal {
    /// Creates a portal around a single child, with every flag off.
    pub fn new(child: Element) -> (widget: Portal)
        ensures
            widget == (Portal {
                child: Box::new(child),
                constrain_horizontal: false,
                constrain_vertical: false,
                must_fill: false,
                right_to_left: false,
            }),
    {
        Portal {
            child: Box::new(child),
            constrain_horizontal: false,
            constrain_vertical: false,
            must_fill: false,
            right_to_left: false,
        }
    }

    /// Sets whether the child is given the viewport's width as an upper
    /// bound.
    pub fn constrain_horizontal(self, constrain: bool) -> (widget: Portal)
        ensures
            widget == (Portal { constrain_horizontal: constrain, ..self }),
    {
        let mut widget = self;
        widget.constrain_horizontal = constrain;
        widget
    }

    /// Sets whether the child is given the viewport's height as an upper
    /// bound.
    pub fn constrain_vertical(self, constrain: bool) -> (widget: Portal)
        ensures
            widget == (Portal { constrain_vertical: constrain, ..self }),
    {
        let mut widget = self;
        widget.constrain_vertical = constrain;
        widget
    }

    /// Sets whether the child must fill the viewport.
    pub fn content_must_fill(self, must_fill: bool) -> (widget: Portal)
        ensures
            widget == (Portal { must_fill, ..self }),
    {
        let mut widget = self;
        widget.must_fill = must_fill;
        widget
    }

    /// Sets whether the application runs right to left.
    pub fn with_rtl(self, right_to_left: bool) -> (widget: Portal)
        ensures
            widget == (Portal { right_to_left, ..self }),
    {
        let mut widget = self;
        widget.right_to_left = right_to_left;
        widget
    }

    /// Replaces the child widget: the old child leaves the tree, and the
    /// change of structure is reported once.
    pub fn set_child(this: &mut WidgetMut<'_, Self>, child: Element)
        ensures
            final(this).id() == old(this).id(),
            final(this).now() == (Portal { child: Box::new(child), ..old(this).now() }),
            final(this).signals() == old(this).signals().push(
                Signal { target: old(this).id(), class: Invalidation::Structure },
            ),
            *final(final(this).widget) == *final(old(this).widget),
            *final(final(this).ctx.journal) == *final(old(this).ctx.journal),
    {
        this.widget.child = Box::new(child);
        this.ctx.children_changed();
    }

    /// Sets whether the child is constrained horizontally. A change is laid
    /// out again; the same flag again asks for nothing.
    pub fn set_constrain_horizontal(this: &mut WidgetMut<'_, Self>, constrain: bool)
        ensures
            final(this).id() == old(this).id(),
            final(this).now() == (Portal { constrain_horizontal: constrain, ..old(this).now() }),
            final(this).signals() == if old(this).now().constrain_horizontal == constrain {
                old(this).signals()
            } else {
                old(this).signals().push(
                    Signal { target: old(this).id(), class: Invalidation::Layout },
                )
            },
            *final(final(this).widget) == *final(old(this).widget),
            *final(final(this).ctx.journal) == *final(old(this).ctx.journal),
    {
        if this.widget.constrain_horizontal != constrain {
            this.widget.constrain_horizontal = constrain;
            this.ctx.request_layout();
        }
    }

    /// Sets whether the child is constrained vertically. A change is laid
    /// out again; the same flag again asks for nothing.
    pub fn set_constrain_vertical(this: &mut WidgetMut<'_, Self>, constrain: bool)
        ensures
            final(this).id() == old(this).id(),
            final(this).now() == (Portal { constrain_vertical: constrain, ..old(this).now() }),
            final(this).signals() == if old(this).now().constrain_vertical == constrain {
                old(this).signals()
            } else {
                old(this).signals().push(
                    Signal { target: old(this).id(), class: Invalidation::Layout },
                )
            },
            *final(final(this).widget) == *final(old(this).widget),
            *final(final(this).ctx.journal) == *final(old(this).ctx.journal),
    {
        if this.widget.constrain_vertical != constrain {
            this.widget.constrain_vertical = constrain;
            this.ctx.request_layout();
        }
    }

    /// Sets whether the child must fill the viewport. A change is laid out
    /// again; the same flag again asks for nothing.
    pub fn set_content_must_fill(this: &mut WidgetMut<'_, Self>, must_fill: bool)
        ensures
            final(this).id() == old(this).id(),
            final(this).now() == (Portal { must_fill, ..old(this).now() }),
            final(this).signals() == if old(this).now().must_fill == must_fill {
                old(this).signals()
            } else {
                old(this).signals().push(
                    Signal { target: old(this).id(), class: Invalidation::Layout },
                )
            },
            *final(final(this).widget) == *final(old(this).widget),
            *final(final(this).ctx.journal) == *final(old(this).ctx.journal),
    {
        if this.widget.must_fill != must_fill {
            this.widget.must_fill = must_fill;
            this.ctx.request_layout();
        }
    }

    /// Sets whether the application runs right to left. A change is laid out
    /// again; the same flag again asks for nothing.
    pub fn set_rtl(this: &mut WidgetMut<'_, Self>, right_to_left: bool)
        ensures
            final(this).id() == old(this).id(),
            final(this).now() == (Portal { right_to_left, ..old(this).now() }),
            final(this).signals() == if old(this).now().right_to_left == right_to_left {
                old(this).signals()
            } else {
                old(this).signals().push(
                    Signal { target: old(this).id(), class: Invalidation::Layout },
                )
            },
            *final(final(this).widget) == *final(old(this).widget),
            *final(final(this).ctx.journal) == *final(old(this).ctx.journal),
    {
        if this.widget.right_to_left != right_to_left {
            this.widget.right_to_left = right_to_left;
            this.ctx.request_layout();
        }
    }

    /// Returns a handle on the child widget. What is done through it is done
    /// to the child inside this widget, and reported to the same journal.
    pub fn child_mut<'t>(this: &'t mut WidgetMut<'_, Self>) -> (child: WidgetMut<'t, Widget>)
        ensures
            child.id() == old(this).now().child.id,
            child.now() == old(this).now().child.widget,
            child.signals() == old(this).signals(),
            final(this).id() == old(this).id(),
            final(this).now() == (Portal {
                child: Box::new(
                    Pod { id: old(this).now().child.id, widget: *final(child.widget) },
                ),
                ..old(this).now()
            }),
            final(this).signals() == final(child.ctx.journal)@,
            *final(final(this).widget) == *final(old(this).widget),
            *final(final(this).ctx.journal) == *final(old(this).ctx.journal),
    {
        WidgetMut {
            ctx: MutateCtx { id: this.widget.child.id, journal: &mut *this.ctx.journal },
            widget: &mut this.widget.child.widget,
        }
    }

    /// Registers the child with the tree manager.
    pub fn register_children(&self, ctx: &mut RegisterCtx)
        ensures
            final(ctx).registered@ == old(ctx).registered@.push(self.child.id),
    {
        ctx.register_child(&self.child);
    }

    /// The role under which assistive technology sees the widget: that of
    /// a generic container.
    pub fn accessibility_role(&self) -> (role: Role)
        ensures
            role == Role::GenericContainer,
    {
        Role::GenericContainer
    }

    /// The identifier of the child.
    pub fn children_ids(&self) -> (ids: Vec<WidgetId>)
        ensures
            ids@ == seq![self.child.id],
    {
        let mut ids: Vec<WidgetId> = Vec::new();
        ids.push(self.child.id);
        ids
    }
}

impl Pod<Portal> {
    /// The element as one of any kind.
    pub open spec fn erase(self) -> Element {
        Pod { id: self.id, widget: Widget::Portal(self.widget) }
    }

    /// The element as one of any kind.
    pub fn erased(self) -> (element: Element)
        ensures
            element == self.erase(),
    {
        Pod { id: self.id, widget: Widget::Portal(self.widget) }
    }
}

} // verus!
