//! Views, and how a tree of views is applied to the retained tree.
//!
//! A view is an immutable description of one node of the interface. The
//! application describes the whole interface anew whenever its state has
//! changed; [`AnyView::build`] makes the elements of a description that is
//! new, [`AnyView::rebuild`] brings live elements from the previous
//! description to the next one, [`AnyView::teardown`] retires them, and
//! [`AnyView::message`] takes a message down the tree to its widget.

use vstd::prelude::*;
use crate::element::{Element, Pod, Widget, WidgetKind, WidgetMut};
use crate::id::WidgetId;
use crate::invalidation::{Invalidation, Journal, Signal};
use crate::message::{Action, AppState, MessageCtx, MessageResult};

pub mod backdrop_blur;
pub mod checkbox;
pub mod portal;

use backdrop_blur::BackdropBlur;
use checkbox::Checkbox;
use portal::Portal;

verus! {

/// What happened to one identifier.
#[derive(Clone, Copy, PartialEq, Eq, Structural, Debug)]
pub enum Lifecycle {
    /// The identifier was issued to a new element.
    Created(WidgetId),
    /// The element was torn down and its identifier retired.
    TornDown(WidgetId),
}

/// `Created` for each of `ids`, in order.
pub open spec fn created(ids: Seq<WidgetId>) -> Seq<Lifecycle> {
    ids.map_values(|id: WidgetId| Lifecycle::Created(id))
}

/// `TornDown` for each of `ids`, in order.
pub open spec fn torn_down(ids: Seq<WidgetId>) -> Seq<Lifecycle> {
    ids.map_values(|id: WidgetId| Lifecycle::TornDown(id))
}

/// The state that the views share: the source of identifiers, which issues
/// them in increasing order and never twice, and the record of every element
/// created and torn down.
pub struct ViewCtx {
    pub next_id: u64,
    pub events: Vec<Lifecycle>,
}

impl ViewCtx {
    /// Whether `count` more identifiers can be issued.
    pub open spec fn has_room(self, count: nat) -> bool {
        self.next_id + count <= u64::MAX
    }

    /// A context that has issued nothing yet.
    pub fn new() -> (ctx: ViewCtx)
        ensures
            ctx.next_id == 0,
            ctx.events@ == Seq::<Lifecycle>::empty(),
    {
        ViewCtx { next_id: 0, events: Vec::new() }
    }

    /// Makes `widget` an element of the tree, under the next identifier.
    pub fn create_pod<W>(&mut self, widget: W) -> (pod: Pod<W>)
        requires
            old(self).has_room(1),
        ensures
            pod == (Pod { id: WidgetId(old(self).next_id), widget }),
            final(self).next_id == old(self).next_id + 1,
            final(self).events@ == old(self).events@.push(Lifecycle::Created(pod.id)),
    {
        let id = WidgetId(self.next_id);
        self.next_id += 1;
        self.events.push(Lifecycle::Created(id));
        Pod { id, widget }
    }

    /// Whether there are identifiers left to build the tree of `view`.
    pub fn can_build(&self, view: &AnyView) -> (ok: bool)
        ensures
            ok == self.has_room(view.size()),
    {
        match view.checked_size() {
            Some(size) => size <= u64::MAX - self.next_id,
            None => false,
        }
    }

    /// Whether there are identifiers left to go from `prev` to `view`.
    pub fn can_rebuild(&self, view: &AnyView, prev: &AnyView) -> (ok: bool)
        ensures
            ok == self.has_room(view.fresh(*prev)),
    {
        match view.checked_fresh(prev) {
            Some(fresh) => fresh <= u64::MAX - self.next_id,
            None => false,
        }
    }

    /// Retires the identifier of an element that is torn down.
    pub fn retire(&mut self, id: WidgetId)
        ensures
            final(self).next_id == old(self).next_id,
            final(self).events@ == old(self).events@.push(Lifecycle::TornDown(id)),
    {
        self.events.push(Lifecycle::TornDown(id));
    }
}

/// What the views keep between two descriptions for one position of the
/// tree: the identifier of the element that stands there, whether it is
/// still live, and the same for the position of its child.
#[derive(Debug, PartialEq, Eq)]
pub struct ViewState {
    pub id: WidgetId,
    pub live: bool,
    pub child: Option<Box<ViewState>>,
}

impl ViewState {
    /// The state that goes with the live tree under `element`.
    pub open spec fn of(element: Element) -> ViewState
        decreases element,
    {
        ViewState {
            id: element.id,
            live: true,
            child: match element.widget.child() {
                Some(child) => Some(Box::new(ViewState::of(child))),
                None => None,
            },
        }
    }

    /// Whether this is the state that goes with the live tree under
    /// `element`: the same identifiers in the same places, none released.
    pub fn tracks(&self, element: &Element) -> (r: bool)
        ensures
            r == (*self == ViewState::of(*element)),
        decreases self,
    {
        if self.id != element.id || !self.live {
            return false;
        }
        match (&self.child, &element.widget) {
            (Some(state), Widget::Portal(widget)) => state.tracks(&widget.child),
            (Some(state), Widget::BackdropBlur(widget)) => state.tracks(&widget.child),
            (None, Widget::Checkbox(_)) => true,
            _ => false,
        }
    }

    /// The state of the position of the child.
    pub fn child_mut(&mut self) -> (child: &mut ViewState)
        requires
            old(self).child is Some,
        ensures
            *child == *old(self).child.unwrap(),
            *final(self) == (ViewState { child: Some(Box::new(*final(child))), ..*old(self) }),
    {
        match &mut self.child {
            Some(child) => &mut **child,
            None => vstd::pervasive::unreached(),
        }
    }

    /// The same state with every position released.
    pub open spec fn released(self) -> ViewState
        decreases self,
    {
        ViewState {
            id: self.id,
            live: false,
            child: match self.child {
                Some(child) => Some(Box::new(child.released())),
                None => None,
            },
        }
    }
}

/// Where a message went: what became of it, how many identifiers of its
/// path were taken on the way, and the actions that it raised.
pub struct Routed {
    pub result: MessageResult,
    pub taken: nat,
    pub raised: Seq<Action>,
}

/// A message never takes more identifiers than its path holds.
pub proof fn lemma_route_taken_in_path(view: AnyView, element: Element, path: Seq<WidgetId>)
    ensures
        view.route(element, path).taken <= path.len(),
    decreases view,
{
    if path.len() > 1 && path[0] == element.id {
        match (view.child(), element.widget.child()) {
            (Some(view_child), Some(child)) => {
                lemma_route_taken_in_path(view_child, child, path.skip(1));
            },
            _ => {},
        }
    }
}

/// A view of any kind.
#[derive(Debug, PartialEq, Eq)]
pub enum AnyView {
    Portal(Portal),
    BackdropBlur(BackdropBlur),
    Checkbox(Checkbox),
}

impl AnyView {
    /// The kind of widget that the view describes.
    pub open spec fn kind(self) -> WidgetKind {
        match self {
            AnyView::Portal(_) => WidgetKind::Portal,
            AnyView::BackdropBlur(_) => WidgetKind::BackdropBlur,
            AnyView::Checkbox(_) => WidgetKind::Checkbox,
        }
    }

    /// The view of the child, if the view is one of a container.
    pub open spec fn child(self) -> Option<AnyView> {
        match self {
            AnyView::Portal(view) => Some(*view.child),
            AnyView::BackdropBlur(view) => Some(*view.child),
            AnyView::Checkbox(_) => None,
        }
    }

    /// The number of views in the tree under this one, itself included.
    pub open spec fn size(self) -> nat
        decreases self,
    {
        match self.child() {
            Some(child) => child.size() + 1,
            None => 1,
        }
    }

    /// The kinds in the tree, each parent before its children: the shape of
    /// the tree.
    pub open spec fn shape(self) -> Seq<WidgetKind>
        decreases self,
    {
        match self.child() {
            Some(child) => seq![self.kind()] + child.shape(),
            None => seq![self.kind()],
        }
    }

    /// The widget that the view describes, around the element of its child
    /// where it has one.
    pub open spec fn widget(self, child: Option<Element>) -> Widget {
        match self {
            AnyView::Portal(view) => Widget::Portal(view.widget(child.unwrap())),
            AnyView::BackdropBlur(view) => Widget::BackdropBlur(view.widget(child.unwrap())),
            AnyView::Checkbox(view) => Widget::Checkbox(view.widget()),
        }
    }

    /// The tree of elements that building the view gives when `first` is the
    /// next identifier: children are built before their parent, so the
    /// deepest element has `first` and the root the greatest identifier.
    pub open spec fn built(self, first: u64) -> Element
        decreases self,
    {
        match self.child() {
            Some(child) => Pod {
                id: WidgetId((first + child.size()) as u64),
                widget: self.widget(Some(child.built(first))),
            },
            None => Pod { id: WidgetId(first), widget: self.widget(None) },
        }
    }

    /// Whether `widget` is of the kind that the view describes and has the
    /// properties that the view gives, whatever its child.
    pub open spec fn describes(self, widget: Widget) -> bool {
        widget == self.widget(widget.child())
    }

    /// Whether the tree under `element` is what the tree of views under this
    /// one describes: the same kinds in the same places, each widget with the
    /// properties of its view.
    pub open spec fn reflected_by(self, element: Element) -> bool
        decreases self,
    {
        &&& self.describes(element.widget)
        &&& match (self.child(), element.widget.child()) {
            (Some(view), Some(child)) => view.reflected_by(child),
            (None, None) => true,
            _ => false,
        }
    }

    /// The number of identifiers that going from `prev` to this view takes:
    /// where a view is of another kind than the one before it, everything
    /// under it is built anew.
    pub open spec fn fresh(self, prev: AnyView) -> nat
        decreases self,
    {
        if self.kind() != prev.kind() {
            self.size()
        } else {
            match (self.child(), prev.child()) {
                (Some(view_child), Some(prev_child)) => view_child.fresh(prev_child),
                _ => 0,
            }
        }
    }

    /// The tree that stands where `element` stood once the views have gone
    /// from `prev` to this one, with `next` the next identifier. Where the
    /// kind stays, the element keeps its identifier and takes the properties
    /// of this view; where the kind differs, the tree is built anew.
    pub open spec fn reconciled(self, prev: AnyView, element: Element, next: u64) -> Element
        decreases self,
    {
        if self.kind() != prev.kind() {
            self.built(next)
        } else {
            Pod {
                id: element.id,
                widget: self.widget(
                    match (self.child(), prev.child(), element.widget.child()) {
                        (Some(view_child), Some(prev_child), Some(child)) => Some(
                            view_child.reconciled(prev_child, child, next),
                        ),
                        _ => None,
                    },
                ),
            }
        }
    }

    /// The identifiers of the elements that stay when the views go from
    /// `prev` to this one: those from the root down to where the kinds first
    /// differ.
    pub open spec fn kept(self, prev: AnyView, element: Element) -> Seq<WidgetId>
        decreases self,
    {
        if self.kind() != prev.kind() {
            Seq::empty()
        } else {
            match (self.child(), prev.child(), element.widget.child()) {
                (Some(view_child), Some(prev_child), Some(child)) => seq![element.id]
                    + view_child.kept(prev_child, child),
                _ => seq![element.id],
            }
        }
    }

    /// What the properties that differ between `prev` and this view ask of
    /// the widget `id`, in the order in which they are compared.
    pub open spec fn property_signals(self, prev: AnyView, id: WidgetId) -> Seq<Signal> {
        match (self, prev) {
            (AnyView::Portal(view), AnyView::Portal(prev)) => view.property_signals(prev, id),
            (AnyView::BackdropBlur(view), AnyView::BackdropBlur(prev)) => view.property_signals(
                prev,
                id,
            ),
            (AnyView::Checkbox(view), AnyView::Checkbox(prev)) => view.property_signals(prev, id),
            _ => Seq::empty(),
        }
    }

    /// The requests that going from `prev` to this view makes on the tree
    /// under `element`: at each level those of its properties, then those of
    /// the levels below, then one change of structure where the child was
    /// replaced.
    pub open spec fn rebuild_signals(self, prev: AnyView, element: Element) -> Seq<Signal>
        decreases self,
    {
        if self.kind() != prev.kind() {
            Seq::empty()
        } else {
            self.property_signals(prev, element.id) + match (
                self.child(),
                prev.child(),
                element.widget.child(),
            ) {
                (Some(view_child), Some(prev_child), Some(child)) => view_child.rebuild_signals(
                    prev_child,
                    child,
                ) + if view_child.kind() != prev_child.kind() {
                    seq![Signal { target: element.id, class: Invalidation::Structure }]
                } else {
                    Seq::empty()
                },
                _ => Seq::empty(),
            }
        }
    }

    /// The elements torn down and created when the views go from `prev` to
    /// this one: where the kind differs, the old tree is torn down, children
    /// first, and then the new one is built, children first.
    pub open spec fn rebuild_events(self, prev: AnyView, element: Element, next: u64) -> Seq<
        Lifecycle,
    >
        decreases self,
    {
        if self.kind() != prev.kind() {
            torn_down(element.post_order()) + created(self.built(next).post_order())
        } else {
            match (self.child(), prev.child(), element.widget.child()) {
                (Some(view_child), Some(prev_child), Some(child)) => view_child.rebuild_events(
                    prev_child,
                    child,
                    next,
                ),
                _ => Seq::empty(),
            }
        }
    }

    /// Brings the tree under `element` from what `prev` describes to what
    /// this view describes.
    ///
    /// Where the two views are of one kind, each property that differs is
    /// written to the widget, and the same is done for the children. Where
    /// they are not, the two are never compared: the old tree is torn down,
    /// a new one is built, and it is returned for whoever holds `element` to
    /// put in its place.
    pub fn rebuild(
        &self,
        prev: &AnyView,
        view_state: &mut ViewState,
        ctx: &mut ViewCtx,
        element: WidgetMut<'_, Widget>,
        app_state: &mut AppState,
    ) -> (replacement: Option<Element>)
        requires
            prev.reflected_by(element.pod()),
            *old(view_state) == ViewState::of(element.pod()),
            old(ctx).has_room(self.fresh(*prev)),
        ensures
            self.kind() == prev.kind() ==> replacement is None && (Pod {
                id: element.id(),
                widget: *final(element.widget),
            }) == self.reconciled(*prev, element.pod(), old(ctx).next_id),
            self.kind() != prev.kind() ==> replacement == Some(
                self.reconciled(*prev, element.pod(), old(ctx).next_id),
            ) && *final(element.widget) == element.now(),
            final(element.ctx.journal)@ == element.signals() + self.rebuild_signals(
                *prev,
                element.pod(),
            ),
            final(ctx).next_id == old(ctx).next_id + self.fresh(*prev),
            final(ctx).events@ == old(ctx).events@ + self.rebuild_events(
                *prev,
                element.pod(),
                old(ctx).next_id,
            ),
            *final(view_state) == ViewState::of(
                self.reconciled(*prev, element.pod(), old(ctx).next_id),
            ),
            final(app_state)@ == old(app_state)@,
        decreases self,
    {
        match (self, prev) {
            (AnyView::Portal(view), AnyView::Portal(prev_view)) => {
                view.rebuild(prev_view, view_state, ctx, element.into_portal(), app_state);
                None
            },
            (AnyView::BackdropBlur(view), AnyView::BackdropBlur(prev_view)) => {
                view.rebuild(prev_view, view_state, ctx, element.into_backdrop_blur(), app_state);
                None
            },
            (AnyView::Checkbox(view), AnyView::Checkbox(prev_view)) => {
                view.rebuild(prev_view, view_state, ctx, element.into_checkbox(), app_state);
                None
            },
            _ => {
                prev.teardown(view_state, ctx, element);
                let (replacement, state) = self.build(ctx, app_state);
                *view_state = state;
                Some(replacement)
            },
        }
    }

    /// Brings the whole tree under `root` from what `prev` describes to what
    /// this view describes, and says whether the root itself was replaced.
    ///
    /// Afterwards the tree is what this view describes, whatever the two
    /// views are: it has the shape of this view, and each widget has the
    /// properties of its view.
    pub fn reconcile(
        &self,
        prev: &AnyView,
        view_state: &mut ViewState,
        ctx: &mut ViewCtx,
        root: &mut Element,
        journal: &mut Journal,
        app_state: &mut AppState,
    ) -> (replaced: bool)
        requires
            prev.reflected_by(*old(root)),
            *old(view_state) == ViewState::of(*old(root)),
            old(ctx).has_room(self.fresh(*prev)),
        ensures
            replaced == (self.kind() != prev.kind()),
            *final(root) == self.reconciled(*prev, *old(root), old(ctx).next_id),
            self.reflected_by(*final(root)),
            final(root).shape() == self.shape(),
            final(journal)@ == old(journal)@ + self.rebuild_signals(*prev, *old(root)),
            final(ctx).next_id == old(ctx).next_id + self.fresh(*prev),
            final(ctx).events@ == old(ctx).events@ + self.rebuild_events(
                *prev,
                *old(root),
                old(ctx).next_id,
            ),
            *final(view_state) == ViewState::of(*final(root)),
            final(app_state)@ == old(app_state)@,
    {
        proof {
            crate::laws::lemma_reconciled_reflects(*self, *prev, *root, ctx.next_id);
        }
        let replacement = {
            let handle = WidgetMut::new(root, journal);
            self.rebuild(prev, view_state, ctx, handle, app_state)
        };
        match replacement {
            Some(element) => {
                *root = element;
                true
            },
            None => false,
        }
    }

    /// The actions that a message raises when it reaches the widget of this
    /// view: a container takes no messages.
    pub open spec fn actions(self) -> Seq<Action> {
        match self {
            AnyView::Checkbox(view) => seq![view.on_toggle],
            _ => Seq::empty(),
        }
    }

    /// Where a message with the path `path` goes in the tree under `element`.
    ///
    /// An empty path names nobody. A path whose first identifier is not that
    /// of `element` is stale. Otherwise the message is for `element` itself
    /// where the path ends there, and for its child where it goes on; a path
    /// that goes on below a leaf is stale.
    pub open spec fn route(self, element: Element, path: Seq<WidgetId>) -> Routed
        decreases self,
    {
        if path.len() == 0 {
            Routed { result: MessageResult::Unhandled, taken: 0, raised: Seq::empty() }
        } else if path[0] != element.id {
            Routed { result: MessageResult::Stale, taken: 1, raised: Seq::empty() }
        } else {
            match (self.child(), element.widget.child()) {
                (Some(view_child), Some(child)) => if path.len() == 1 {
                    Routed { result: MessageResult::Unhandled, taken: 1, raised: Seq::empty() }
                } else {
                    let below = view_child.route(child, path.skip(1));
                    Routed { result: below.result, taken: below.taken + 1, raised: below.raised }
                },
                _ => if path.len() == 1 {
                    Routed { result: MessageResult::Handled, taken: 1, raised: self.actions() }
                } else {
                    Routed { result: MessageResult::Stale, taken: 1, raised: Seq::empty() }
                },
            }
        }
    }

    /// Takes a message down the tree, one level for each identifier of its
    /// path, and hands it to the widget at which the path ends. Nothing but
    /// the levels on the path is visited, and the tree is left as it was.
    pub fn message(
        &self,
        view_state: &mut ViewState,
        message: &mut MessageCtx,
        element: WidgetMut<'_, Widget>,
        app_state: &mut AppState,
    ) -> (result: MessageResult)
        requires
            self.reflected_by(element.pod()),
            *old(view_state) == ViewState::of(element.pod()),
        ensures
            result == self.route(element.pod(), old(message)@).result,
            final(message)@ == old(message)@.skip(
                self.route(element.pod(), old(message)@).taken as int,
            ),
            final(app_state)@ == old(app_state)@ + self.route(
                element.pod(),
                old(message)@,
            ).raised,
            *final(element.widget) == element.now(),
            final(element.ctx.journal)@ == element.signals(),
            *final(view_state) == *old(view_state),
        decreases self,
    {
        match self {
            AnyView::Portal(view) => view.message(
                view_state,
                message,
                element.into_portal(),
                app_state,
            ),
            AnyView::BackdropBlur(view) => view.message(
                view_state,
                message,
                element.into_backdrop_blur(),
                app_state,
            ),
            AnyView::Checkbox(view) => view.message(
                view_state,
                message,
                element.into_checkbox(),
                app_state,
            ),
        }
    }

    /// Retires the tree under `element`, children before their parent, and
    /// releases the state that went with it. The widgets stay as they are:
    /// whoever holds the element drops it.
    pub fn teardown(
        &self,
        view_state: &mut ViewState,
        ctx: &mut ViewCtx,
        element: WidgetMut<'_, Widget>,
    )
        requires
            self.reflected_by(element.pod()),
            *old(view_state) == ViewState::of(element.pod()),
        ensures
            *final(element.widget) == element.now(),
            final(element.ctx.journal)@ == element.signals(),
            final(ctx).next_id == old(ctx).next_id,
            final(ctx).events@ == old(ctx).events@ + torn_down(element.pod().post_order()),
            *final(view_state) == old(view_state).released(),
        decreases self,
    {
        match self {
            AnyView::Portal(view) => view.teardown(view_state, ctx, element.into_portal()),
            AnyView::BackdropBlur(view) => view.teardown(
                view_state,
                ctx,
                element.into_backdrop_blur(),
            ),
            AnyView::Checkbox(view) => view.teardown(view_state, ctx, element.into_checkbox()),
        }
    }

    /// The number of views in the tree; `None` where it is over `u64::MAX`.
    pub fn checked_size(&self) -> (size: Option<u64>)
        ensures
            size matches Some(n) ==> n == self.size(),
            size is None ==> self.size() > u64::MAX,
        decreases self,
    {
        let below = match self {
            AnyView::Portal(view) => view.child.checked_size(),
            AnyView::BackdropBlur(view) => view.child.checked_size(),
            AnyView::Checkbox(_) => Some(0),
        };
        match below {
            Some(n) => n.checked_add(1),
            None => None,
        }
    }

    /// The number of identifiers that going from `prev` to this view takes;
    /// `None` where it is over `u64::MAX`.
    pub fn checked_fresh(&self, prev: &AnyView) -> (fresh: Option<u64>)
        ensures
            fresh matches Some(n) ==> n == self.fresh(*prev),
            fresh is None ==> self.fresh(*prev) > u64::MAX,
        decreases self,
    {
        match (self, prev) {
            (AnyView::Portal(view), AnyView::Portal(prev_view)) => view.child.checked_fresh(
                &prev_view.child,
            ),
            (AnyView::BackdropBlur(view), AnyView::BackdropBlur(prev_view)) => {
                view.child.checked_fresh(&prev_view.child)
            },
            (AnyView::Checkbox(_), AnyView::Checkbox(_)) => Some(0),
            _ => self.checked_size(),
        }
    }

    /// Whether the tree under `element` is what this view describes.
    pub fn is_reflected_by(&self, element: &Element) -> (r: bool)
        ensures
            r == self.reflected_by(*element),
        decreases self,
    {
        match (self, &element.widget) {
            (AnyView::Portal(view), Widget::Portal(widget)) => {
                view.constrain_horizontal == widget.constrain_horizontal
                    && view.constrain_vertical == widget.constrain_vertical && view.must_fill
                    == widget.must_fill && view.right_to_left == widget.right_to_left
                    && view.child.is_reflected_by(&widget.child)
            },
            (AnyView::BackdropBlur(view), Widget::BackdropBlur(widget)) => {
                view.blur_radius == widget.blur_radius && view.tint == widget.tint
                    && view.clip_content == widget.clip_content && view.child.is_reflected_by(
                    &widget.child,
                )
            },
            (AnyView::Checkbox(view), Widget::Checkbox(widget)) => view.checked == widget.checked,
            _ => false,
        }
    }

    /// The kind of widget that the view describes.
    pub fn kind_of(&self) -> (kind: WidgetKind)
        ensures
            kind == self.kind(),
    {
        match self {
            AnyView::Portal(_) => WidgetKind::Portal,
            AnyView::BackdropBlur(_) => WidgetKind::BackdropBlur,
            AnyView::Checkbox(_) => WidgetKind::Checkbox,
        }
    }

    /// Builds the elements that the view describes, children first, and the
    /// state that goes with them.
    pub fn build(&self, ctx: &mut ViewCtx, app_state: &mut AppState) -> (built: (
        Element,
        ViewState,
    ))
        requires
            old(ctx).has_room(self.size()),
        ensures
            built.0 == self.built(old(ctx).next_id),
            self.reflected_by(built.0),
            built.0.shape() == self.shape(),
            built.1 == ViewState::of(built.0),
            final(ctx).next_id == old(ctx).next_id + self.size(),
            final(ctx).events@ == old(ctx).events@ + created(built.0.post_order()),
            final(app_state)@ == old(app_state)@,
        decreases self,
    {
        proof {
            crate::laws::lemma_built_reflects(*self, ctx.next_id);
            crate::laws::lemma_reflected_shape(*self, self.built(ctx.next_id));
        }
        match self {
            AnyView::Portal(view) => {
                let (pod, state) = view.build(ctx, app_state);
                (pod.erased(), state)
            },
            AnyView::BackdropBlur(view) => {
                let (pod, state) = view.build(ctx, app_state);
                (pod.erased(), state)
            },
            AnyView::Checkbox(view) => {
                let (pod, state) = view.build(ctx, app_state);
                (pod.erased(), state)
            },
        }
    }
}

} // verus!
