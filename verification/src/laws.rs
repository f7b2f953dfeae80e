//! What holds of every tree of views and every tree of elements.

use vstd::prelude::*;
use crate::element::Element;
use crate::id::WidgetId;
use crate::invalidation::{level_of, Signal};
use crate::message::MessageResult;
use crate::view::{AnyView, Lifecycle};

verus! {

/// A tree that was just built has one element for each view.
pub proof fn lemma_built_size(view: AnyView, first: u64)
    ensures
        view.built(first).size() == view.size(),
    decreases view,
{
    match view.child() {
        Some(child) => lemma_built_size(child, first),
        None => {},
    }
}

/// A tree that was just built is what its views describe.
pub proof fn lemma_built_reflects(view: AnyView, first: u64)
    ensures
        view.reflected_by(view.built(first)),
    decreases view,
{
    match view.child() {
        Some(child) => lemma_built_reflects(child, first),
        None => {},
    }
}

/// Identifiers are never used again: a tree built when `first` was the next
/// identifier holds each of its identifiers once, all of them from `first`
/// on, one for each element.
pub proof fn lemma_built_ids_are_new(view: AnyView, first: u64)
    requires
        first + view.size() <= u64::MAX,
    ensures
        view.built(first).ids().len() == view.size(),
        view.built(first).ids().no_duplicates(),
        forall|i: int|
            0 <= i < view.built(first).ids().len() ==> first <= (#[trigger] view.built(
                first,
            ).ids()[i]).0 < first + view.size(),
        view.built(first).issued_before((first + view.size()) as u64),
    decreases view,
{
    match view.child() {
        Some(child) => {
            lemma_built_ids_are_new(child, first);
            let below = child.built(first).ids();
            let ids = view.built(first).ids();
            assert(ids =~= seq![view.built(first).id] + below);
            assert forall|i: int| 0 <= i < ids.len() implies first <= (#[trigger] ids[i]).0 < first
                + view.size() by {
                if i > 0 {
                    assert(ids[i] == below[i - 1]);
                }
            }
            assert forall|i: int, j: int| 0 <= i < ids.len() && 0 <= j < ids.len() && i != j implies ids[i]
                != ids[j] by {
                if i > 0 {
                    assert(ids[i] == below[i - 1]);
                }
                if j > 0 {
                    assert(ids[j] == below[j - 1]);
                }
            }
        },
        None => {},
    }
}

/// A tree of elements that is what a tree of views describes has the shape
/// of the views: as many levels, of the same kinds, in the same order.
pub proof fn lemma_reflected_shape(view: AnyView, element: Element)
    requires
        view.reflected_by(element),
    ensures
        element.shape() == view.shape(),
        element.size() == view.size(),
    decreases view,
{
    match (view.child(), element.widget.child()) {
        (Some(view_child), Some(child)) => lemma_reflected_shape(view_child, child),
        _ => {},
    }
}

/// Whatever the change from `prev` to `view`, the tree that stands after the
/// change is what `view` describes, and so has its shape.
pub proof fn lemma_reconciled_reflects(view: AnyView, prev: AnyView, element: Element, next: u64)
    requires
        prev.reflected_by(element),
    ensures
        view.reflected_by(view.reconciled(prev, element, next)),
        view.reconciled(prev, element, next).shape() == view.shape(),
    decreases view,
{
    if view.kind() != prev.kind() {
        lemma_built_reflects(view, next);
    } else {
        match (view.child(), prev.child(), element.widget.child()) {
            (Some(view_child), Some(prev_child), Some(child)) => {
                lemma_reconciled_reflects(view_child, prev_child, child, next);
            },
            _ => {},
        }
    }
    lemma_reflected_shape(view, view.reconciled(prev, element, next));
}

/// After any change of the views, the tree still holds each identifier
/// once; each is one that the tree held before or one issued for the change,
/// and none is `next + view.fresh(prev)` or later.
pub proof fn lemma_reconciled_ids(view: AnyView, prev: AnyView, element: Element, next: u64)
    requires
        prev.reflected_by(element),
        element.issued_before(next),
        next + view.fresh(prev) <= u64::MAX,
    ensures
        view.reconciled(prev, element, next).issued_before((next + view.fresh(prev)) as u64),
        forall|i: int|
            0 <= i < view.reconciled(prev, element, next).ids().len() ==> {
                let id = #[trigger] view.reconciled(prev, element, next).ids()[i];
                element.ids().contains(id) || id.0 >= next
            },
    decreases view,
{
    let after = view.reconciled(prev, element, next);
    if view.kind() != prev.kind() {
        lemma_built_ids_are_new(view, next);
    } else {
        match (view.child(), prev.child(), element.widget.child()) {
            (Some(view_child), Some(prev_child), Some(child)) => {
                let below = view_child.reconciled(prev_child, child, next);
                assert(element.ids() =~= seq![element.id] + child.ids());
                assert forall|i: int| 0 <= i < child.ids().len() implies element.ids()[i + 1]
                    == #[trigger] child.ids()[i] by {}
                assert(child.issued_before(next)) by {
                    assert forall|i: int, j: int|
                        0 <= i < child.ids().len() && 0 <= j < child.ids().len() && i
                            != j implies child.ids()[i] != child.ids()[j] by {
                        assert(element.ids()[i + 1] == child.ids()[i]);
                        assert(element.ids()[j + 1] == child.ids()[j]);
                    }
                    assert forall|i: int| 0 <= i < child.ids().len() implies (
                    #[trigger] child.ids()[i]).0 < next by {
                        assert(element.ids()[i + 1] == child.ids()[i]);
                    }
                }
                lemma_reconciled_ids(view_child, prev_child, child, next);
                assert(after.ids() =~= seq![element.id] + below.ids());
                assert(element.ids()[0] == element.id);
                assert forall|i: int| 0 <= i < below.ids().len() implies #[trigger] below.ids()[i]
                    != element.id by {
                    let id = below.ids()[i];
                    if child.ids().contains(id) {
                        let k = choose|k: int| 0 <= k < child.ids().len() && child.ids()[k] == id;
                        assert(element.ids()[k + 1] == id);
                    }
                }
                assert forall|i: int, j: int|
                    0 <= i < after.ids().len() && 0 <= j < after.ids().len() && i
                        != j implies after.ids()[i] != after.ids()[j] by {
                    if i > 0 {
                        assert(after.ids()[i] == below.ids()[i - 1]);
                    }
                    if j > 0 {
                        assert(after.ids()[j] == below.ids()[j - 1]);
                    }
                }
                assert forall|i: int| 0 <= i < after.ids().len() implies ({
                    let id = #[trigger] after.ids()[i];
                    &&& id.0 < next + view.fresh(prev)
                    &&& element.ids().contains(id) || id.0 >= next
                }) by {
                    if i > 0 {
                        let id = below.ids()[i - 1];
                        assert(after.ids()[i] == id);
                        if child.ids().contains(id) {
                            let k = choose|k: int|
                                0 <= k < child.ids().len() && child.ids()[k] == id;
                            assert(element.ids()[k + 1] == id);
                        }
                    }
                }
            },
            _ => {},
        }
    }
}

/// An element that does not stay leaves for good: once the views have gone
/// from `prev` to `view`, the tree holds no identifier of the old tree but
/// those of the elements that were kept.
pub proof fn lemma_replaced_elements_leave(
    view: AnyView,
    prev: AnyView,
    element: Element,
    next: u64,
    id: WidgetId,
)
    requires
        prev.reflected_by(element),
        element.issued_before(next),
        next + view.fresh(prev) <= u64::MAX,
        element.ids().contains(id),
        !view.kept(prev, element).contains(id),
    ensures
        !view.reconciled(prev, element, next).ids().contains(id),
    decreases view,
{
    let after = view.reconciled(prev, element, next);
    let at = choose|k: int| 0 <= k < element.ids().len() && element.ids()[k] == id;
    if view.kind() != prev.kind() {
        lemma_built_ids_are_new(view, next);
    } else {
        match (view.child(), prev.child(), element.widget.child()) {
            (Some(view_child), Some(prev_child), Some(child)) => {
                let below = view_child.reconciled(prev_child, child, next);
                let kept = view.kept(prev, element);
                assert(kept =~= seq![element.id] + view_child.kept(prev_child, child));
                assert(kept[0] == element.id);
                assert(element.ids() =~= seq![element.id] + child.ids());
                assert(at > 0);
                assert(child.ids()[at - 1] == id);
                assert(!view_child.kept(prev_child, child).contains(id)) by {
                    if view_child.kept(prev_child, child).contains(id) {
                        let k = choose|k: int|
                            0 <= k < view_child.kept(prev_child, child).len() && view_child.kept(
                                prev_child,
                                child,
                            )[k] == id;
                        assert(kept[k + 1] == id);
                    }
                }
                assert(child.issued_before(next)) by {
                    assert forall|i: int, j: int|
                        0 <= i < child.ids().len() && 0 <= j < child.ids().len() && i
                            != j implies child.ids()[i] != child.ids()[j] by {
                        assert(element.ids()[i + 1] == child.ids()[i]);
                        assert(element.ids()[j + 1] == child.ids()[j]);
                    }
                    assert forall|i: int| 0 <= i < child.ids().len() implies (
                    #[trigger] child.ids()[i]).0 < next by {
                        assert(element.ids()[i + 1] == child.ids()[i]);
                    }
                }
                lemma_replaced_elements_leave(view_child, prev_child, child, next, id);
                assert(after.ids() =~= seq![element.id] + below.ids());
                if after.ids().contains(id) {
                    let k = choose|k: int| 0 <= k < after.ids().len() && after.ids()[k] == id;
                    assert(k > 0);
                    assert(below.ids()[k - 1] == id);
                }
            },
            _ => {
                assert(view.kept(prev, element)[0] == element.id);
            },
        }
    }
}

/// Going from a view to the same view changes nothing: no request is made,
/// no element is torn down or created, no identifier is taken, and the tree
/// stays as it is.
pub proof fn lemma_unchanged_view_is_silent(view: AnyView, element: Element, next: u64)
    requires
        view.reflected_by(element),
    ensures
        view.rebuild_signals(view, element) == Seq::<Signal>::empty(),
        view.rebuild_events(view, element, next) == Seq::<Lifecycle>::empty(),
        view.fresh(view) == 0,
        view.reconciled(view, element, next) == element,
    decreases view,
{
    assert(view.property_signals(view, element.id) =~= Seq::<Signal>::empty());
    match (view.child(), element.widget.child()) {
        (Some(view_child), Some(child)) => {
            lemma_unchanged_view_is_silent(view_child, child, next);
        },
        _ => {},
    }
    assert(view.rebuild_signals(view, element) =~= Seq::<Signal>::empty());
}

/// Once the tree has been brought to `view`, bringing it to `view` a second
/// time makes no request and changes nothing, whatever the tree was before.
pub proof fn lemma_second_rebuild_is_silent(
    view: AnyView,
    prev: AnyView,
    element: Element,
    next: u64,
    later: u64,
)
    requires
        prev.reflected_by(element),
    ensures
        ({
            let first = view.reconciled(prev, element, next);
            &&& view.rebuild_signals(view, first) == Seq::<Signal>::empty()
            &&& view.rebuild_events(view, first, later) == Seq::<Lifecycle>::empty()
            &&& view.reconciled(view, first, later) == first
        }),
{
    lemma_reconciled_reflects(view, prev, element, next);
    lemma_unchanged_view_is_silent(view, view.reconciled(prev, element, next), later);
}

/// The requests of a rebuild only add to what was pending: no widget is in a
/// weaker state after it than before.
pub proof fn lemma_rebuild_only_escalates(
    pending: Seq<Signal>,
    view: AnyView,
    prev: AnyView,
    element: Element,
    id: WidgetId,
)
    ensures
        level_of(pending, id).rank() <= level_of(
            pending + view.rebuild_signals(prev, element),
            id,
        ).rank(),
{
    crate::invalidation::lemma_level_monotonic(
        pending,
        pending + view.rebuild_signals(prev, element),
        id,
    );
}

/// In the order in which a tree is torn down, the element `depth` levels
/// below the root stands `depth` places before the end: every element comes
/// after all the elements below it, and the root comes last.
pub proof fn lemma_post_order_places(element: Element, depth: nat)
    requires
        depth < element.size(),
    ensures
        element.post_order().len() == element.size(),
        element.post_order()[element.size() - 1 - depth] == element.descendant(depth).id,
    decreases element,
{
    match element.widget.child() {
        Some(child) => {
            if depth > 0 {
                lemma_post_order_places(child, (depth - 1) as nat);
            } else {
                lemma_post_order_places(child, 0);
            }
        },
        None => {},
    }
}

/// Of two elements of a tree, the deeper one is torn down first.
pub proof fn lemma_teardown_is_post_order(element: Element, upper: nat, lower: nat)
    requires
        upper < lower < element.size(),
    ensures
        ({
            let order = element.post_order();
            let last = element.size() - 1;
            &&& order[last - lower] == element.descendant(lower).id
            &&& order[last - upper] == element.descendant(upper).id
            &&& last - lower < last - upper
        }),
{
    lemma_post_order_places(element, upper);
    lemma_post_order_places(element, lower);
}

/// A path that names an identifier which is not in the tree is stale, and
/// raises nothing: so is every path through an element that has left the
/// tree.
pub proof fn lemma_unknown_identifier_is_stale(
    view: AnyView,
    element: Element,
    path: Seq<WidgetId>,
    at: int,
)
    requires
        0 <= at < path.len(),
        !element.ids().contains(path[at]),
    ensures
        view.route(element, path).result == MessageResult::Stale,
        view.route(element, path).raised.len() == 0,
    decreases view,
{
    if path[0] == element.id {
        assert(element.ids()[0] == element.id);
        assert(at > 0);
        match (view.child(), element.widget.child()) {
            (Some(view_child), Some(child)) => {
                assert forall|i: int| 0 <= i < child.ids().len() implies element.ids().contains(
                    child.ids()[i],
                ) by {
                    assert(element.ids()[i + 1] == child.ids()[i]);
                }
                assert(path.skip(1)[at - 1] == path[at]);
                lemma_unknown_identifier_is_stale(view_child, child, path.skip(1), at - 1);
            },
            _ => {},
        }
    }
}

/// A message raised in an element that a later change of the views replaced
/// is stale: its path names an identifier of the old tree that was not kept,
/// and the tree that stands after the change no longer holds it.
pub proof fn lemma_message_for_replaced_element_is_stale(
    view: AnyView,
    prev: AnyView,
    element: Element,
    next: u64,
    path: Seq<WidgetId>,
    at: int,
)
    requires
        prev.reflected_by(element),
        element.issued_before(next),
        next + view.fresh(prev) <= u64::MAX,
        0 <= at < path.len(),
        element.ids().contains(path[at]),
        !view.kept(prev, element).contains(path[at]),
    ensures
        view.route(view.reconciled(prev, element, next), path).result == MessageResult::Stale,
        view.route(view.reconciled(prev, element, next), path).raised.len() == 0,
{
    lemma_replaced_elements_leave(view, prev, element, next, path[at]);
    lemma_unknown_identifier_is_stale(view, view.reconciled(prev, element, next), path, at);
}

} // verus!
