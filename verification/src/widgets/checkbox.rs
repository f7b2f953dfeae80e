//! A box that is checked or not.

use vstd::prelude::*;
use crate::element::{Element, Pod, RegisterCtx, Widget, WidgetMut};
use crate::id::WidgetId;
use crate::invalidation::{Invalidation, Signal};
use crate::passes::Role;

verus! {

/// A box that is checked or not: a leaf of the tree.
#[derive(Debug, PartialEq, Eq)]
pub struct Checkbox {
    pub checked: bool,
}

impl Checkbox {
    /// A checkbox in the given state.
    pub fn new(checked: bool) -> (checkbox: Checkbox)
        ensures
            checkbox == (Checkbox { checked }),
    {
        Checkbox { checked }
    }

    /// Checks or unchecks the box. A change is painted; the same state again
    /// asks for nothing.
    pub fn set_checked(this: &mut WidgetMut<'_, Self>, checked: bool)
        ensures
            final(this).id() == old(this).id(),
            final(this).now() == (Checkbox { checked }),
            final(this).signals() == if old(this).now().checked == checked {
                old(this).signals()
            } else {
                old(this).signals().push(
                    Signal { target: old(this).id(), class: Invalidation::Render },
                )
            },
            *final(final(this).widget) == *final(old(this).widget),
            *final(final(this).ctx.journal) == *final(old(this).ctx.journal),
    {
        if this.widget.checked != checked {
            this.widget.checked = checked;
            this.ctx.request_render();
        }
    }

    /// The role under which assistive technology sees the widget: that of
    /// a check box.
    pub fn accessibility_role(&self) -> (role: Role)
        ensures
            role == Role::CheckBox,
    {
        Role::CheckBox
    }

    /// A checkbox has no children.
    pub fn children_ids(&self) -> (ids: Vec<WidgetId>)
        ensures
            ids@ == Seq::<WidgetId>::empty(),
    {
        Vec::new()
    }

    /// A checkbox has no children to register.
    pub fn register_children(&self, ctx: &mut RegisterCtx)
        ensures
            final(ctx).registered@ == old(ctx).registered@,
    {
    }
}

impl Pod<Checkbox> {
    /// The element as one of any kind.
    pub open spec fn erase(self) -> Element {
        Pod { id: self.id, widget: Widget::Checkbox(self.widget) }
    }

    /// The element as one of any kind.
    pub fn erased(self) -> (element: Element)
        ensures
            element == self.erase(),
    {
        Pod { id: self.id, widget: Widget::Checkbox(self.widget) }
    }
}

} // verus!
