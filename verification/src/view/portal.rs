//! The view of a scrollable region.

use vstd::prelude::*;
use crate::element::{Element, Pod, WidgetMut};
use crate::id::WidgetId;
use crate::invalidation::{Invalidation, Signal};
use crate::message::{AppState, MessageCtx, MessageResult};
use crate::view::{
    created, lemma_route_taken_in_path, torn_down, AnyView, ViewCtx, ViewState,
};
use crate::widgets;

verus! {

/// A view which puts `child` into a scrollable region.
pub fn portal(child: AnyView) -> (view: Portal)
    ensures
        view == (Portal {
            child: Box::new(child),
            constrain_horizontal: false,
            constrain_vertical: false,
            must_fill: false,
            right_to_left: false,
        }),
{
    Portal {
        child: Box::new(child),
        constrain_horizontal: false,
        constrain_vertical: false,
        must_fill: false,
        right_to_left: false,
    }
}

/// The view created by [`portal`].
#[must_use]
#[derive(Debug, PartialEq, Eq)]
pub struct Portal {
    pub child: Box<AnyView>,
    pub constrain_horizontal: bool,
    pub constrain_vertical: bool,
    pub must_fill: bool,
    /// The direction of the app language. If it's right to left, the
    /// vertical scrollbar will be placed at the left side of the portal.
    pub right_to_left: bool,
}

impl Portal {
    /// The widget that this view describes, around `child`.
    pub open spec fn widget(self, child: Element) -> widgets::portal::Portal {
        widgets::portal::Portal {
            child: Box::new(child),
            constrain_horizontal: self.constrain_horizontal,
            constrain_vertical: self.constrain_vertical,
            must_fill: self.must_fill,
            right_to_left: self.right_to_left,
        }
    }

    /// What changing from `prev` to this view asks of the widget `id`: one
    /// layout for each flag that differs.
    pub open spec fn property_signals(self, prev: Portal, id: WidgetId) -> Seq<Signal> {
        let layout = seq![Signal { target: id, class: Invalidation::Layout }];
        let none = Seq::<Signal>::empty();
        (if self.constrain_horizontal != prev.constrain_horizontal { layout } else { none })
            + (if self.constrain_vertical != prev.constrain_vertical { layout } else { none })
            + (if self.must_fill != prev.must_fill { layout } else { none })
            + (if self.right_to_left != prev.right_to_left { layout } else { none })
    }

    /// Builder-style method for deciding whether to constrain the child
    /// vertically.
    ///
    /// The default is `false`.
    ///
    /// - When it is `false`, the child does not receive any upper bound on
    ///   its height: the child can be as tall as it wants, and the viewport
    ///   is moved around to see all of it.
    /// - When it is `true`, the viewport's maximum height is passed down as
    ///   an upper bound on the height of the child, and the viewport sets
    ///   its own height to be the same as its child's height.
    pub fn constrain_vertical(self, constrain: bool) -> (view: Portal)
        ensures
            view == (Portal { constrain_vertical: constrain, ..self }),
    {
        let mut view = self;
        view.constrain_vertical = constrain;
        view
    }

    /// Builder-style method for deciding whether to constrain the child
    /// horizontally.
    ///
    /// The default is `false`.
    pub fn constrain_horizontal(self, constrain: bool) -> (view: Portal)
        ensures
            view == (Portal { constrain_horizontal: constrain, ..self }),
    {
        let mut view = self;
        view.constrain_horizontal = constrain;
        view
    }

    /// Builder-style method to set whether the child must fill the view.
    ///
    /// If `false` (the default) there is no minimum constraint on the
    /// child's size. If `true`, the child is passed the same minimum
    /// constraints as the portal.
    pub fn content_must_fill(self, must_fill: bool) -> (view: Portal)
        ensures
            view == (Portal { must_fill, ..self }),
    {
        let mut view = self;
        view.must_fill = must_fill;
        view
    }

    /// Builder-style method to set the right to left direction of the app.
    ///
    /// This will influence whether the vertical scrollbar is placed to the
    /// right side or to the left side of the portal.
    pub fn with_rtl(self, right_to_left: bool) -> (view: Portal)
        ensures
            view == (Portal { right_to_left, ..self }),
    {
        let mut view = self;
        view.right_to_left = right_to_left;
        view
    }

    /// Builds the child, then the portal around it.
    pub fn build(&self, ctx: &mut ViewCtx, app_state: &mut AppState) -> (built: (
        Pod<widgets::portal::Portal>,
        ViewState,
    ))
        requires
            old(ctx).has_room(self.child.size() + 1),
        ensures
            built.0.erase() == AnyView::Portal(*self).built(old(ctx).next_id),
            built.1 == ViewState::of(built.0.erase()),
            final(ctx).next_id == old(ctx).next_id + self.child.size() + 1,
            final(ctx).events@ == old(ctx).events@ + created(built.0.erase().post_order()),
            final(app_state)@ == old(app_state)@,
        decreases self,
    {
        let (child, child_state) = self.child.build(ctx, app_state);
        let widget_pod = ctx.create_pod(
            widgets::portal::Portal::new(child).constrain_horizontal(
                self.constrain_horizontal,
            ).constrain_vertical(self.constrain_vertical).content_must_fill(
                self.must_fill,
            ).with_rtl(self.right_to_left),
        );
        let state = ViewState { id: widget_pod.id, live: true, child: Some(Box::new(child_state)) };
        proof {
            assert(ctx.events@ =~= old(ctx).events@ + created(
                widget_pod.erase().post_order(),
            ));
        }
        (widget_pod, state)
    }

    /// Writes each property that differs from `prev` to the widget, in the
    /// order horizontal constraint, vertical constraint, fill, direction.
    pub fn rebuild_properties(
        &self,
        prev: &Self,
        element: &mut WidgetMut<'_, widgets::portal::Portal>,
    )
        requires
            old(element).now() == prev.widget(*old(element).now().child),
        ensures
            final(element).id() == old(element).id(),
            final(element).now() == self.widget(*old(element).now().child),
            final(element).signals() == old(element).signals() + self.property_signals(
                *prev,
                old(element).id(),
            ),
            *final(final(element).widget) == *final(old(element).widget),
            *final(final(element).ctx.journal) == *final(old(element).ctx.journal),
    {
        let ghost before = element.signals();
        let ghost layout = seq![Signal { target: element.id(), class: Invalidation::Layout }];
        let ghost none = Seq::<Signal>::empty();
        if self.constrain_horizontal != prev.constrain_horizontal {
            widgets::portal::Portal::set_constrain_horizontal(
                element,
                self.constrain_horizontal,
            );
        }
        let ghost first = if self.constrain_horizontal != prev.constrain_horizontal {
            layout
        } else {
            none
        };
        assert(element.signals() =~= before + first);
        if self.constrain_vertical != prev.constrain_vertical {
            widgets::portal::Portal::set_constrain_vertical(element, self.constrain_vertical);
        }
        let ghost second = first + if self.constrain_vertical != prev.constrain_vertical {
            layout
        } else {
            none
        };
        assert(element.signals() =~= before + second);
        if self.must_fill != prev.must_fill {
            widgets::portal::Portal::set_content_must_fill(element, self.must_fill);
        }
        let ghost third = second + if self.must_fill != prev.must_fill {
            layout
        } else {
            none
        };
        assert(element.signals() =~= before + third);
        if self.right_to_left != prev.right_to_left {
            widgets::portal::Portal::set_rtl(element, self.right_to_left);
        }
        let ghost fourth = third + if self.right_to_left != prev.right_to_left {
            layout
        } else {
            none
        };
        assert(element.signals() =~= before + fourth);
        assert(fourth == self.property_signals(*prev, old(element).id()));
    }

    /// Writes each property that differs from `prev` to the widget, then
    /// brings the child from the child of `prev` to the child of this view;
    /// a child of another kind is replaced.
    pub fn rebuild(
        &self,
        prev: &Self,
        view_state: &mut ViewState,
        ctx: &mut ViewCtx,
        mut element: WidgetMut<'_, widgets::portal::Portal>,
        app_state: &mut AppState,
    )
        requires
            AnyView::Portal(*prev).reflected_by(element.pod().erase()),
            *old(view_state) == ViewState::of(element.pod().erase()),
            old(ctx).has_room(AnyView::Portal(*self).fresh(AnyView::Portal(*prev))),
        ensures
            (Pod { id: element.id(), widget: *final(element.widget) }).erase() == AnyView::Portal(
                *self,
            ).reconciled(AnyView::Portal(*prev), element.pod().erase(), old(ctx).next_id),
            final(element.ctx.journal)@ == element.signals() + AnyView::Portal(
                *self,
            ).rebuild_signals(AnyView::Portal(*prev), element.pod().erase()),
            final(ctx).next_id == old(ctx).next_id + AnyView::Portal(*self).fresh(
                AnyView::Portal(*prev),
            ),
            final(ctx).events@ == old(ctx).events@ + AnyView::Portal(*self).rebuild_events(
                AnyView::Portal(*prev),
                element.pod().erase(),
                old(ctx).next_id,
            ),
            *final(view_state) == ViewState::of(
                AnyView::Portal(*self).reconciled(
                    AnyView::Portal(*prev),
                    element.pod().erase(),
                    old(ctx).next_id,
                ),
            ),
            final(app_state)@ == old(app_state)@,
        decreases self,
    {
        self.rebuild_properties(prev, &mut element);
        let replacement = {
            let child_element = widgets::portal::Portal::child_mut(&mut element);
            self.child.rebuild(&prev.child, view_state.child_mut(), ctx, child_element, app_state)
        };
        match replacement {
            Some(child) => widgets::portal::Portal::set_child(&mut element, child),
            None => {},
        }
    }

    /// Takes a message on to the child. The portal takes no message itself.
    pub fn message(
        &self,
        view_state: &mut ViewState,
        message: &mut MessageCtx,
        mut element: WidgetMut<'_, widgets::portal::Portal>,
        app_state: &mut AppState,
    ) -> (result: MessageResult)
        requires
            AnyView::Portal(*self).reflected_by(element.pod().erase()),
            *old(view_state) == ViewState::of(element.pod().erase()),
        ensures
            result == AnyView::Portal(*self).route(element.pod().erase(), old(message)@).result,
            final(message)@ == old(message)@.skip(
                AnyView::Portal(*self).route(element.pod().erase(), old(message)@).taken as int,
            ),
            final(app_state)@ == old(app_state)@ + AnyView::Portal(*self).route(
                element.pod().erase(),
                old(message)@,
            ).raised,
            *final(element.widget) == element.now(),
            final(element.ctx.journal)@ == element.signals(),
            *final(view_state) == *old(view_state),
        decreases self,
    {
        match message.take_first() {
            None => MessageResult::Unhandled,
            Some(id) => {
                if id != element.ctx.id {
                    MessageResult::Stale
                } else if message.is_empty() {
                    MessageResult::Unhandled
                } else {
                    let ghost rest = message@;
                    let ghost child = *element.now().child;
                    let child_element = widgets::portal::Portal::child_mut(&mut element);
                    let result = self.child.message(
                        view_state.child_mut(),
                        message,
                        child_element,
                        app_state,
                    );
                    proof {
                        let taken = self.child.route(child, rest).taken as int;
                        lemma_route_taken_in_path(*self.child, child, rest);
                        assert(rest.skip(taken) =~= old(message)@.skip(taken + 1));
                    }
                    result
                }
            },
        }
    }

    /// Retires the tree under the portal: the child first, then the portal
    /// itself.
    pub fn teardown(
        &self,
        view_state: &mut ViewState,
        ctx: &mut ViewCtx,
        mut element: WidgetMut<'_, widgets::portal::Portal>,
    )
        requires
            AnyView::Portal(*self).reflected_by(element.pod().erase()),
            *old(view_state) == ViewState::of(element.pod().erase()),
        ensures
            *final(element.widget) == element.now(),
            final(element.ctx.journal)@ == element.signals(),
            final(ctx).next_id == old(ctx).next_id,
            final(ctx).events@ == old(ctx).events@ + torn_down(
                element.pod().erase().post_order(),
            ),
            *final(view_state) == old(view_state).released(),
        decreases self,
    {
        let child_element = widgets::portal::Portal::child_mut(&mut element);
        self.child.teardown(view_state.child_mut(), ctx, child_element);
        ctx.retire(view_state.id);
        view_state.live = false;
        proof {
            assert(ctx.events@ =~= old(ctx).events@ + torn_down(
                element.pod().erase().post_order(),
            ));
        }
    }
}

} // verus!
