//! The view of a frosted-glass container.

use vstd::prelude::*;
use crate::element::{Element, Pod, WidgetMut};
use crate::id::WidgetId;
use crate::invalidation::{Invalidation, Signal};
use crate::message::{AppState, MessageCtx, MessageResult};
use crate::style::{Color, Length};
use crate::view::{
    created, lemma_route_taken_in_path, torn_down, AnyView, ViewCtx, ViewState,
};
use crate::widgets;
use crate::widgets::backdrop_blur::DEFAULT_BLUR_RADIUS_BITS;

verus! {

/// A frosted-glass style container that applies a backdrop blur treatment
/// behind `child`: radius 18, a white tint of alpha `0x24`, content clipped.
pub fn backdrop_blur(child: AnyView) -> (view: BackdropBlur)
    ensures
        view == (BackdropBlur {
            child: Box::new(child),
            blur_radius: Length { bits: DEFAULT_BLUR_RADIUS_BITS },
            tint: Color { r: 0xff, g: 0xff, b: 0xff, a: 0x24 },
            clip_content: true,
        }),
{
    BackdropBlur {
        child: Box::new(child),
        blur_radius: Length::from_bits(DEFAULT_BLUR_RADIUS_BITS),
        tint: Color::from_rgba8(0xff, 0xff, 0xff, 0x24),
        clip_content: true,
    }
}

/// The view created by [`backdrop_blur`].
#[must_use]
#[derive(Debug, PartialEq, Eq)]
pub struct BackdropBlur {
    pub child: Box<AnyView>,
    pub blur_radius: Length,
    pub tint: Color,
    pub clip_content: bool,
}

impl BackdropBlur {
    /// The widget that this view describes, around `child`.
    pub open spec fn widget(self, child: Element) -> widgets::backdrop_blur::BackdropBlur {
        widgets::backdrop_blur::BackdropBlur {
            child: Box::new(child),
            blur_radius: self.blur_radius,
            tint: self.tint,
            clip_content: self.clip_content,
        }
    }

    /// What changing from `prev` to this view asks of the widget `id`: a
    /// repaint for another radius, a repaint for another tint, a layout for
    /// another clip flag, in this order.
    pub open spec fn property_signals(self, prev: BackdropBlur, id: WidgetId) -> Seq<Signal> {
        let render = seq![Signal { target: id, class: Invalidation::Render }];
        let layout = seq![Signal { target: id, class: Invalidation::Layout }];
        let none = Seq::<Signal>::empty();
        (if self.blur_radius != prev.blur_radius { render } else { none })
            + (if self.tint != prev.tint { render } else { none })
            + (if self.clip_content != prev.clip_content { layout } else { none })
    }

    /// Sets the blur radius, in logical pixels.
    pub fn blur_radius(self, blur_radius: Length) -> (view: BackdropBlur)
        ensures
            view == (BackdropBlur { blur_radius, ..self }),
    {
        let mut view = self;
        view.blur_radius = blur_radius;
        view
    }

    /// Sets the tint color applied to the blur treatment.
    pub fn tint(self, tint: Color) -> (view: BackdropBlur)
        ensures
            view == (BackdropBlur { tint, ..self }),
    {
        let mut view = self;
        view.tint = tint;
        view
    }

    /// Sets whether child painting should be clipped to this widget's bounds.
    pub fn clip_content(self, clip_content: bool) -> (view: BackdropBlur)
        ensures
            view == (BackdropBlur { clip_content, ..self }),
    {
        let mut view = self;
        view.clip_content = clip_content;
        view
    }

    /// Builds the child, then the container around it.
    pub fn build(&self, ctx: &mut ViewCtx, app_state: &mut AppState) -> (built: (
        Pod<widgets::backdrop_blur::BackdropBlur>,
        ViewState,
    ))
        requires
            old(ctx).has_room(self.child.size() + 1),
        ensures
            built.0.erase() == AnyView::BackdropBlur(*self).built(old(ctx).next_id),
            built.1 == ViewState::of(built.0.erase()),
            final(ctx).next_id == old(ctx).next_id + self.child.size() + 1,
            final(ctx).events@ == old(ctx).events@ + created(built.0.erase().post_order()),
            final(app_state)@ == old(app_state)@,
        decreases self,
    {
        let (child, child_state) = self.child.build(ctx, app_state);
        let widget = widgets::backdrop_blur::BackdropBlur::new(child).blur_radius(
            self.blur_radius,
        ).tint(self.tint).clip_content(self.clip_content);
        let widget_pod = ctx.create_pod(widget);
        let state = ViewState { id: widget_pod.id, live: true, child: Some(Box::new(child_state)) };
        proof {
            assert(ctx.events@ =~= old(ctx).events@ + created(
                widget_pod.erase().post_order(),
            ));
        }
        (widget_pod, state)
    }

    /// Writes each property that differs from `prev` to the widget, in the
    /// order radius, tint, clip.
    pub fn rebuild_properties(
        &self,
        prev: &Self,
        element: &mut WidgetMut<'_, widgets::backdrop_blur::BackdropBlur>,
    )
        requires
            old(element).now() == prev.widget(*old(element).now().child),
        ensures
            final(element).id() == old(element).id(),
            final(element).now() == self.widget(*old(element).now().child),
            final(element).signals() == old(element).signals() + self.property_signals(
                *prev,
                old(element).id(),
            ),
            *final(final(element).widget) == *final(old(element).widget),
            *final(final(element).ctx.journal) == *final(old(element).ctx.journal),
    {
        if self.blur_radius != prev.blur_radius {
            widgets::backdrop_blur::BackdropBlur::set_blur_radius(element, self.blur_radius);
        }
        if self.tint != prev.tint {
            widgets::backdrop_blur::BackdropBlur::set_tint(element, self.tint);
        }
        if self.clip_content != prev.clip_content {
            widgets::backdrop_blur::BackdropBlur::set_clip_content(
                element,
                self.clip_content,
            );
        }
    }

    /// Writes each property that differs from `prev` to the widget, then
    /// brings the child from the child of `prev` to the child of this view;
    /// a child of another kind is replaced.
    pub fn rebuild(
        &self,
        prev: &Self,
        view_state: &mut ViewState,
        ctx: &mut ViewCtx,
        mut element: WidgetMut<'_, widgets::backdrop_blur::BackdropBlur>,
        app_state: &mut AppState,
    )
        requires
            AnyView::BackdropBlur(*prev).reflected_by(element.pod().erase()),
            *old(view_state) == ViewState::of(element.pod().erase()),
            old(ctx).has_room(AnyView::BackdropBlur(*self).fresh(AnyView::BackdropBlur(*prev))),
        ensures
            (Pod { id: element.id(), widget: *final(element.widget) }).erase() == AnyView::BackdropBlur(
                *self,
            ).reconciled(AnyView::BackdropBlur(*prev), element.pod().erase(), old(ctx).next_id),
            final(element.ctx.journal)@ == element.signals() + AnyView::BackdropBlur(
                *self,
            ).rebuild_signals(AnyView::BackdropBlur(*prev), element.pod().erase()),
            final(ctx).next_id == old(ctx).next_id + AnyView::BackdropBlur(*self).fresh(
                AnyView::BackdropBlur(*prev),
            ),
            final(ctx).events@ == old(ctx).events@ + AnyView::BackdropBlur(*self).rebuild_events(
                AnyView::BackdropBlur(*prev),
                element.pod().erase(),
                old(ctx).next_id,
            ),
            *final(view_state) == ViewState::of(
                AnyView::BackdropBlur(*self).reconciled(
                    AnyView::BackdropBlur(*prev),
                    element.pod().erase(),
                    old(ctx).next_id,
                ),
            ),
            final(app_state)@ == old(app_state)@,
        decreases self,
    {
        self.rebuild_properties(prev, &mut element);
        let replacement = {
            let child_element = widgets::backdrop_blur::BackdropBlur::child_mut(&mut element);
            self.child.rebuild(&prev.child, view_state.child_mut(), ctx, child_element, app_state)
        };
        match replacement {
            Some(child) => widgets::backdrop_blur::BackdropBlur::set_child(&mut element, child),
            None => {},
        }
    }

    /// Takes a message on to the child. The container takes no message itself.
    pub fn message(
        &self,
        view_state: &mut ViewState,
        message: &mut MessageCtx,
        mut element: WidgetMut<'_, widgets::backdrop_blur::BackdropBlur>,
        app_state: &mut AppState,
    ) -> (result: MessageResult)
        requires
            AnyView::BackdropBlur(*self).reflected_by(element.pod().erase()),
            *old(view_state) == ViewState::of(element.pod().erase()),
        ensures
            result == AnyView::BackdropBlur(*self).route(element.pod().erase(), old(message)@).result,
            final(message)@ == old(message)@.skip(
                AnyView::BackdropBlur(*self).route(element.pod().erase(), old(message)@).taken as int,
            ),
            final(app_state)@ == old(app_state)@ + AnyView::BackdropBlur(*self).route(
                element.pod().erase(),
                old(message)@,
            ).raised,
            *final(element.widget) == element.now(),
            final(element.ctx.journal)@ == element.signals(),
            *final(view_state) == *old(view_state),
        decreases self,
    {
        match message.take_first() {
            None => MessageResult::Unhandled,
            Some(id) => {
                if id != element.ctx.id {
                    MessageResult::Stale
                } else if message.is_empty() {
                    MessageResult::Unhandled
                } else {
                    let ghost rest = message@;
                    let ghost child = *element.now().child;
                    let child_element = widgets::backdrop_blur::BackdropBlur::child_mut(&mut element);
                    let result = self.child.message(
                        view_state.child_mut(),
                        message,
                        child_element,
                        app_state,
                    );
                    proof {
                        let taken = self.child.route(child, rest).taken as int;
                        lemma_route_taken_in_path(*self.child, child, rest);
                        assert(rest.skip(taken) =~= old(message)@.skip(taken + 1));
                    }
                    result
                }
            },
        }
    }

    /// Retires the tree under the container: the child first, then the container
    /// itself.
    pub fn teardown(
        &self,
        view_state: &mut ViewState,
        ctx: &mut ViewCtx,
        mut element: WidgetMut<'_, widgets::backdrop_blur::BackdropBlur>,
    )
        requires
            AnyView::BackdropBlur(*self).reflected_by(element.pod().erase()),
            *old(view_state) == ViewState::of(element.pod().erase()),
        ensures
            *final(element.widget) == element.now(),
            final(element.ctx.journal)@ == element.signals(),
            final(ctx).next_id == old(ctx).next_id,
            final(ctx).events@ == old(ctx).events@ + torn_down(
                element.pod().erase().post_order(),
            ),
            *final(view_state) == old(view_state).released(),
        decreases self,
    {
        let child_element = widgets::backdrop_blur::BackdropBlur::child_mut(&mut element);
        self.child.teardown(view_state.child_mut(), ctx, child_element);
        ctx.retire(view_state.id);
        view_state.live = false;
        proof {
            assert(ctx.events@ =~= old(ctx).events@ + torn_down(
                element.pod().erase().post_order(),
            ));
        }
    }
}

} // verus!
