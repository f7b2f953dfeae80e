//! The view of a checkbox.

use vstd::prelude::*;
use crate::element::{Pod, WidgetMut};
use crate::id::WidgetId;
use crate::invalidation::{Invalidation, Signal};
use crate::message::{Action, AppState, MessageCtx, MessageResult};
use crate::view::{AnyView, Lifecycle, ViewCtx, ViewState};
use crate::widgets;

verus! {

/// A checkbox in the given state, which raises `on_toggle` when a message
/// reaches it.
pub fn checkbox(checked: bool, on_toggle: Action) -> (view: Checkbox)
    ensures
        view == (Checkbox { checked, on_toggle }),
{
    Checkbox { checked, on_toggle }
}

/// The view created by [`checkbox`].
#[must_use]
#[derive(Debug, PartialEq, Eq)]
pub struct Checkbox {
    pub checked: bool,
    pub on_toggle: Action,
}

impl Checkbox {
    /// The widget that this view describes.
    pub open spec fn widget(self) -> widgets::checkbox::Checkbox {
        widgets::checkbox::Checkbox { checked: self.checked }
    }

    /// What changing from `prev` to this view asks of the widget `id`.
    pub open spec fn property_signals(self, prev: Checkbox, id: WidgetId) -> Seq<Signal> {
        if self.checked != prev.checked {
            seq![Signal { target: id, class: Invalidation::Render }]
        } else {
            Seq::empty()
        }
    }

    /// Builds the checkbox.
    pub fn build(&self, ctx: &mut ViewCtx, app_state: &mut AppState) -> (built: (
        Pod<widgets::checkbox::Checkbox>,
        ViewState,
    ))
        requires
            old(ctx).has_room(1),
        ensures
            built.0 == (Pod { id: WidgetId(old(ctx).next_id), widget: self.widget() }),
            built.1 == ViewState::of(built.0.erase()),
            final(ctx).next_id == old(ctx).next_id + 1,
            final(ctx).events@ == old(ctx).events@.push(Lifecycle::Created(built.0.id)),
            final(app_state)@ == old(app_state)@,
    {
        let pod = ctx.create_pod(widgets::checkbox::Checkbox::new(self.checked));
        let state = ViewState { id: pod.id, live: true, child: None };
        (pod, state)
    }

    /// Checks or unchecks the box where this view differs from `prev`.
    pub fn rebuild(
        &self,
        prev: &Self,
        view_state: &mut ViewState,
        ctx: &mut ViewCtx,
        mut element: WidgetMut<'_, widgets::checkbox::Checkbox>,
        app_state: &mut AppState,
    )
        requires
            element.now() == prev.widget(),
        ensures
            *final(element.widget) == self.widget(),
            final(element.ctx.journal)@ == element.signals() + self.property_signals(
                *prev,
                element.id(),
            ),
            *final(ctx) == *old(ctx),
            *final(view_state) == *old(view_state),
            final(app_state)@ == old(app_state)@,
    {
        if self.checked != prev.checked {
            widgets::checkbox::Checkbox::set_checked(&mut element, self.checked);
        }
    }

    /// Takes a message whose path ends at the checkbox, and raises
    /// `on_toggle` for it.
    pub fn message(
        &self,
        view_state: &mut ViewState,
        message: &mut MessageCtx,
        element: WidgetMut<'_, widgets::checkbox::Checkbox>,
        app_state: &mut AppState,
    ) -> (result: MessageResult)
        ensures
            result == AnyView::Checkbox(*self).route(element.pod().erase(), old(message)@).result,
            final(message)@ == old(message)@.skip(
                AnyView::Checkbox(*self).route(element.pod().erase(), old(message)@).taken as int,
            ),
            final(app_state)@ == old(app_state)@ + AnyView::Checkbox(*self).route(
                element.pod().erase(),
                old(message)@,
            ).raised,
            *final(element.widget) == element.now(),
            final(element.ctx.journal)@ == element.signals(),
            *final(view_state) == *old(view_state),
    {
        match message.take_first() {
            None => MessageResult::Unhandled,
            Some(id) => {
                if id != element.ctx.id {
                    MessageResult::Stale
                } else if message.is_empty() {
                    app_state.raise(self.on_toggle);
                    MessageResult::Handled
                } else {
                    MessageResult::Stale
                }
            },
        }
    }

    /// Retires the checkbox and releases its state.
    pub fn teardown(
        &self,
        view_state: &mut ViewState,
        ctx: &mut ViewCtx,
        element: WidgetMut<'_, widgets::checkbox::Checkbox>,
    )
        requires
            *old(view_state) == ViewState::of(element.pod().erase()),
        ensures
            *final(element.widget) == element.now(),
            final(element.ctx.journal)@ == element.signals(),
            final(ctx).next_id == old(ctx).next_id,
            final(ctx).events@ == old(ctx).events@.push(Lifecycle::TornDown(element.id())),
            *final(view_state) == old(view_state).released(),
    {
        ctx.retire(view_state.id);
        view_state.live = false;
    }
}

} // verus!
