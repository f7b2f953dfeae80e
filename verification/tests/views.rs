use reconciler::element::{Element, Widget, WidgetKind, WidgetMut};
use reconciler::id::WidgetId;
use reconciler::invalidation::{Invalidation, Journal, Signal};
use reconciler::message::{Action, AppState, MessageCtx, MessageResult};
use reconciler::style::{Color, Length};
use reconciler::view::backdrop_blur::backdrop_blur;
use reconciler::view::checkbox::checkbox;
use reconciler::view::portal::portal;
use reconciler::view::{AnyView, Lifecycle, ViewCtx, ViewState};

fn leaf(checked: bool) -> AnyView {
    AnyView::Checkbox(checkbox(checked, Action(7)))
}

fn three_levels(radius: f64, checked: bool) -> AnyView {
    AnyView::Portal(portal(AnyView::BackdropBlur(
        backdrop_blur(leaf(checked)).blur_radius(Length::from_bits(radius.to_bits())),
    )))
}

fn kinds(element: &Element) -> Vec<WidgetKind> {
    let mut kinds = vec![element.widget.kind_of()];
    match &element.widget {
        Widget::Portal(widget) => kinds.extend(kinds_of_child(&widget.child)),
        Widget::BackdropBlur(widget) => kinds.extend(kinds_of_child(&widget.child)),
        Widget::Checkbox(_) => {}
    }
    kinds
}

fn kinds_of_child(child: &Element) -> Vec<WidgetKind> {
    kinds(child)
}

fn view_kinds(view: &AnyView) -> Vec<WidgetKind> {
    let mut kinds = vec![view.kind_of()];
    match view {
        AnyView::Portal(view) => kinds.extend(view_kinds(&view.child)),
        AnyView::BackdropBlur(view) => kinds.extend(view_kinds(&view.child)),
        AnyView::Checkbox(_) => {}
    }
    kinds
}

struct Tree {
    ctx: ViewCtx,
    app: AppState,
    journal: Journal,
    view: AnyView,
    root: Element,
    state: ViewState,
}

fn build(view: AnyView) -> Tree {
    let mut ctx = ViewCtx::new();
    let mut app = AppState::new();
    assert!(ctx.can_build(&view));
    let (root, state) = view.build(&mut ctx, &mut app);
    Tree { ctx, app, journal: Journal::new(), view, root, state }
}

fn apply(tree: &mut Tree, next: AnyView) -> bool {
    assert!(tree.view.is_reflected_by(&tree.root));
    assert!(tree.state.tracks(&tree.root));
    assert!(tree.ctx.can_rebuild(&next, &tree.view));
    let replaced = next.reconcile(
        &tree.view,
        &mut tree.state,
        &mut tree.ctx,
        &mut tree.root,
        &mut tree.journal,
        &mut tree.app,
    );
    tree.view = next;
    replaced
}

#[test]
fn portal_view_has_every_flag_off() {
    let view = portal(leaf(false));
    assert!(!view.constrain_horizontal);
    assert!(!view.constrain_vertical);
    assert!(!view.must_fill);
    assert!(!view.right_to_left);
    assert_eq!(*view.child, leaf(false));
}

#[test]
fn portal_view_builders_set_one_flag_each() {
    let view = portal(leaf(false)).constrain_vertical(true);
    assert!(view.constrain_vertical && !view.constrain_horizontal);
    let view = view.constrain_horizontal(true);
    assert!(view.constrain_vertical && view.constrain_horizontal && !view.must_fill);
    let view = view.content_must_fill(true);
    assert!(view.must_fill && !view.right_to_left);
    let view = view.with_rtl(true).constrain_vertical(false);
    assert!(view.right_to_left && view.must_fill && !view.constrain_vertical);
}

#[test]
fn backdrop_blur_view_has_the_defaults() {
    let view = backdrop_blur(leaf(true));
    assert_eq!(view.blur_radius.to_bits(), 18.0f64.to_bits());
    assert_eq!(view.tint, Color::from_rgba8(0xff, 0xff, 0xff, 0x24));
    assert!(view.clip_content);
    let view = view.tint(Color::from_rgba8(1, 2, 3, 4)).clip_content(false);
    assert_eq!(view.tint, Color::from_rgba8(1, 2, 3, 4));
    assert!(!view.clip_content);
    assert_eq!(view.blur_radius.to_bits(), 18.0f64.to_bits());
}

#[test]
fn build_gives_children_the_smaller_identifiers() {
    let tree = build(three_levels(18.0, true));
    assert_eq!(tree.root.id, WidgetId(2));
    assert_eq!(tree.root.widget.children_ids(), vec![WidgetId(1)]);
    assert_eq!(tree.ctx.next_id, 3);
    assert_eq!(
        tree.ctx.events,
        vec![
            Lifecycle::Created(WidgetId(0)),
            Lifecycle::Created(WidgetId(1)),
            Lifecycle::Created(WidgetId(2)),
        ]
    );
    assert_eq!(kinds(&tree.root), view_kinds(&tree.view));
    assert!(tree.view.is_reflected_by(&tree.root));
    assert!(tree.state.tracks(&tree.root));
    assert_eq!(tree.journal.len(), 0);
    assert!(tree.app.actions.is_empty());
}

#[test]
fn build_applies_the_properties_of_the_view() {
    let view = AnyView::Portal(
        portal(leaf(true)).constrain_horizontal(true).content_must_fill(true).with_rtl(true),
    );
    let tree = build(view);
    match &tree.root.widget {
        Widget::Portal(widget) => {
            assert!(widget.constrain_horizontal);
            assert!(!widget.constrain_vertical);
            assert!(widget.must_fill);
            assert!(widget.right_to_left);
            assert_eq!(
                widget.child.widget,
                Widget::Checkbox(reconciler::widgets::checkbox::Checkbox::new(true))
            );
        }
        other => panic!("not a portal: {:?}", other),
    }
}

#[test]
fn sizes_are_counted() {
    assert_eq!(leaf(true).checked_size(), Some(1));
    assert_eq!(three_levels(1.0, true).checked_size(), Some(3));
    assert_eq!(three_levels(1.0, true).checked_fresh(&three_levels(2.0, false)), Some(0));
    assert_eq!(three_levels(1.0, true).checked_fresh(&leaf(true)), Some(3));
    let shallow = AnyView::Portal(portal(leaf(true)));
    assert_eq!(three_levels(1.0, true).checked_fresh(&shallow), Some(2));
    assert_eq!(shallow.checked_fresh(&three_levels(1.0, true)), Some(1));
}

#[test]
fn room_for_identifiers_is_checked() {
    let mut ctx = ViewCtx::new();
    ctx.next_id = u64::MAX - 2;
    assert!(ctx.can_build(&AnyView::Portal(portal(leaf(true)))));
    assert!(!ctx.can_build(&three_levels(1.0, true)));
    assert!(ctx.can_rebuild(&three_levels(1.0, true), &three_levels(9.0, true)));
    assert!(!ctx.can_rebuild(&three_levels(1.0, true), &leaf(true)));
}

#[test]
fn rebuild_with_the_same_view_is_silent() {
    let mut tree = build(three_levels(18.0, true));
    let events = tree.ctx.events.len();
    let replaced = apply(&mut tree, three_levels(18.0, true));
    assert!(!replaced);
    assert_eq!(tree.journal.len(), 0);
    assert_eq!(tree.ctx.events.len(), events);
    assert_eq!(tree.ctx.next_id, 3);
    assert_eq!(tree.root.id, WidgetId(2));
}

#[test]
fn second_rebuild_with_an_unchanged_view_is_silent() {
    let mut tree = build(three_levels(18.0, true));
    apply(&mut tree, three_levels(24.0, false));
    assert_eq!(tree.journal.len(), 2);
    apply(&mut tree, three_levels(24.0, false));
    assert_eq!(tree.journal.len(), 2);
    assert_eq!(tree.ctx.next_id, 3);
}

#[test]
fn rebuild_signals_each_changed_property_where_it_is() {
    let mut tree = build(three_levels(18.0, true));
    apply(&mut tree, three_levels(24.0, false));
    assert_eq!(
        tree.journal.signals,
        vec![
            Signal { target: WidgetId(1), class: Invalidation::Render },
            Signal { target: WidgetId(0), class: Invalidation::Render },
        ]
    );
    assert_eq!(tree.journal.level(WidgetId(2)), Invalidation::Clean);
    assert!(tree.view.is_reflected_by(&tree.root));
    assert!(tree.state.tracks(&tree.root));
}

#[test]
fn rebuild_applies_every_portal_flag() {
    let mut tree = build(AnyView::Portal(portal(leaf(true))));
    let next = AnyView::Portal(
        portal(leaf(true))
            .constrain_horizontal(true)
            .constrain_vertical(true)
            .content_must_fill(true)
            .with_rtl(true),
    );
    apply(&mut tree, next);
    assert_eq!(tree.journal.count_on(WidgetId(1), Invalidation::Layout), 4);
    assert_eq!(tree.journal.len(), 4);
    assert!(tree.view.is_reflected_by(&tree.root));

    apply(&mut tree, AnyView::Portal(portal(leaf(true)).constrain_horizontal(true)));
    assert_eq!(tree.journal.len(), 7);
    assert!(tree.view.is_reflected_by(&tree.root));
}

#[test]
fn rebuild_changes_all_three_blur_properties_in_order() {
    let mut tree = build(AnyView::BackdropBlur(backdrop_blur(leaf(true))));
    let next = AnyView::BackdropBlur(
        backdrop_blur(leaf(true))
            .blur_radius(Length::from_bits(2.0f64.to_bits()))
            .tint(Color::from_rgba8(0, 0, 0, 9))
            .clip_content(false),
    );
    apply(&mut tree, next);
    let classes: Vec<Invalidation> =
        tree.journal.signals.iter().map(|signal| signal.class).collect();
    assert_eq!(classes, vec![Invalidation::Render, Invalidation::Render, Invalidation::Layout]);
    assert_eq!(tree.journal.level(WidgetId(1)), Invalidation::Layout);
}

#[test]
fn shape_follows_the_views_through_a_run_of_edits() {
    let edits = vec![
        three_levels(18.0, true),
        AnyView::Portal(portal(leaf(false))),
        AnyView::Portal(portal(AnyView::Portal(portal(leaf(false))))),
        AnyView::BackdropBlur(backdrop_blur(leaf(false))),
        leaf(true),
        three_levels(3.0, false),
        three_levels(3.0, false),
    ];
    let mut tree = build(leaf(false));
    let mut seen = vec![tree.root.id];
    for edit in edits {
        let kind_before = tree.view.kind_of();
        let kind_after = edit.kind_of();
        let replaced = apply(&mut tree, edit);
        assert_eq!(replaced, kind_before != kind_after);
        assert_eq!(kinds(&tree.root), view_kinds(&tree.view));
        assert!(tree.view.is_reflected_by(&tree.root));
        assert!(tree.state.tracks(&tree.root));
        seen.push(tree.root.id);
    }
    let created = tree
        .ctx
        .events
        .iter()
        .filter(|event| matches!(event, Lifecycle::Created(_)))
        .count();
    assert_eq!(created as u64, tree.ctx.next_id);
}

#[test]
fn identifiers_are_never_issued_twice() {
    let mut tree = build(three_levels(18.0, true));
    apply(&mut tree, AnyView::Portal(portal(leaf(false))));
    apply(&mut tree, three_levels(18.0, true));
    apply(&mut tree, leaf(true));
    let mut created: Vec<WidgetId> = tree
        .ctx
        .events
        .iter()
        .filter_map(|event| match event {
            Lifecycle::Created(id) => Some(*id),
            Lifecycle::TornDown(_) => None,
        })
        .collect();
    let count = created.len();
    created.dedup();
    assert_eq!(created.len(), count);
    assert!(created.windows(2).all(|pair| pair[0].to_raw() < pair[1].to_raw()));
}

#[test]
fn every_element_is_torn_down_at_most_once() {
    let mut tree = build(three_levels(18.0, true));
    apply(&mut tree, AnyView::Portal(portal(leaf(false))));
    apply(&mut tree, three_levels(18.0, true));
    apply(&mut tree, leaf(true));
    let mut torn: Vec<u64> = tree
        .ctx
        .events
        .iter()
        .filter_map(|event| match event {
            Lifecycle::TornDown(id) => Some(id.to_raw()),
            Lifecycle::Created(_) => None,
        })
        .collect();
    let count = torn.len();
    torn.sort();
    torn.dedup();
    assert_eq!(torn.len(), count);
}

#[test]
fn replacing_the_root_tears_down_before_it_builds() {
    let mut tree = build(AnyView::Portal(portal(leaf(false))));
    let replaced = apply(&mut tree, AnyView::BackdropBlur(backdrop_blur(leaf(false))));
    assert!(replaced);
    assert_eq!(
        tree.ctx.events[2..].to_vec(),
        vec![
            Lifecycle::TornDown(WidgetId(0)),
            Lifecycle::TornDown(WidgetId(1)),
            Lifecycle::Created(WidgetId(2)),
            Lifecycle::Created(WidgetId(3)),
        ]
    );
    assert_eq!(tree.root.id, WidgetId(3));
    assert_eq!(tree.journal.len(), 0);
}

#[test]
fn teardown_releases_the_state() {
    let mut tree = build(three_levels(18.0, true));
    let before = format!("{:?}", tree.root);
    tree.view.teardown(
        &mut tree.state,
        &mut tree.ctx,
        WidgetMut::new(&mut tree.root, &mut tree.journal),
    );
    assert!(!tree.state.live);
    assert!(!tree.state.child.as_ref().unwrap().live);
    assert!(!tree.state.tracks(&tree.root));
    assert_eq!(format!("{:?}", tree.root), before);
    assert_eq!(tree.ctx.next_id, 3);
}

#[test]
fn teardown_of_a_deep_tree_goes_leaves_first() {
    let mut view = leaf(true);
    for _ in 0..6 {
        view = AnyView::Portal(portal(AnyView::BackdropBlur(backdrop_blur(view))));
    }
    let mut tree = build(view);
    assert_eq!(tree.ctx.next_id, 13);
    tree.view.teardown(
        &mut tree.state,
        &mut tree.ctx,
        WidgetMut::new(&mut tree.root, &mut tree.journal),
    );
    let torn: Vec<Lifecycle> = tree.ctx.events[13..].to_vec();
    let expected: Vec<Lifecycle> = (0..13).map(|id| Lifecycle::TornDown(WidgetId(id))).collect();
    assert_eq!(torn, expected);
}

fn send(tree: &mut Tree, path: Vec<WidgetId>) -> (MessageResult, usize) {
    let mut message = MessageCtx::new(path);
    let result = tree.view.message(
        &mut tree.state,
        &mut message,
        WidgetMut::new(&mut tree.root, &mut tree.journal),
        &mut tree.app,
    );
    (result, message.cursor)
}

#[test]
fn message_reaches_the_leaf_on_its_path() {
    let mut tree = build(three_levels(18.0, true));
    let (result, taken) = send(&mut tree, vec![WidgetId(2), WidgetId(1), WidgetId(0)]);
    assert_eq!(result, MessageResult::Handled);
    assert_eq!(taken, 3);
    assert_eq!(tree.app.actions, vec![Action(7)]);
    assert_eq!(tree.journal.len(), 0);
    assert!(tree.view.is_reflected_by(&tree.root));
    assert!(tree.state.tracks(&tree.root));
}

#[test]
fn message_for_a_container_is_unhandled() {
    let mut tree = build(three_levels(18.0, true));
    assert_eq!(send(&mut tree, vec![WidgetId(2)]), (MessageResult::Unhandled, 1));
    assert_eq!(send(&mut tree, vec![WidgetId(2), WidgetId(1)]), (MessageResult::Unhandled, 2));
    assert!(tree.app.actions.is_empty());
}

#[test]
fn message_without_a_path_is_unhandled() {
    let mut tree = build(three_levels(18.0, true));
    assert_eq!(send(&mut tree, vec![]), (MessageResult::Unhandled, 0));
    assert!(tree.app.actions.is_empty());
}

#[test]
fn message_off_the_tree_is_stale() {
    let mut tree = build(three_levels(18.0, true));
    assert_eq!(send(&mut tree, vec![WidgetId(1)]), (MessageResult::Stale, 1));
    assert_eq!(send(&mut tree, vec![WidgetId(2), WidgetId(0)]), (MessageResult::Stale, 2));
    assert_eq!(
        send(&mut tree, vec![WidgetId(2), WidgetId(1), WidgetId(0), WidgetId(0)]),
        (MessageResult::Stale, 3)
    );
    assert_eq!(send(&mut tree, vec![WidgetId(2), WidgetId(1), WidgetId(9)]), (MessageResult::Stale, 3));
    assert!(tree.app.actions.is_empty());
}

#[test]
fn message_visits_only_the_levels_on_its_path() {
    let mut tree = build(three_levels(18.0, true));
    let (result, taken) =
        send(&mut tree, vec![WidgetId(2), WidgetId(7), WidgetId(0), WidgetId(0), WidgetId(0)]);
    assert_eq!(result, MessageResult::Stale);
    assert_eq!(taken, 2);
}

#[test]
fn message_after_replacement_needs_the_new_path() {
    let mut tree = build(AnyView::Portal(portal(leaf(false))));
    let old_path = vec![WidgetId(1), WidgetId(0)];
    assert_eq!(send(&mut tree, old_path.clone()).0, MessageResult::Handled);

    apply(&mut tree, AnyView::Portal(portal(AnyView::BackdropBlur(backdrop_blur(leaf(false))))));
    assert_eq!(send(&mut tree, old_path).0, MessageResult::Stale);
    assert_eq!(
        send(&mut tree, vec![WidgetId(1), WidgetId(3), WidgetId(2)]).0,
        MessageResult::Handled
    );
    assert_eq!(tree.app.actions, vec![Action(7), Action(7)]);
}

#[test]
fn message_ctx_takes_identifiers_in_order() {
    let mut message = MessageCtx::new(vec![WidgetId(4), WidgetId(5)]);
    assert!(!message.is_empty());
    assert_eq!(message.take_first(), Some(WidgetId(4)));
    assert_eq!(message.take_first(), Some(WidgetId(5)));
    assert!(message.is_empty());
    assert_eq!(message.take_first(), None);
    assert_eq!(message.take_first(), None);
    assert_eq!(message.cursor, 2);
}

#[test]
fn app_state_keeps_actions_in_order() {
    let mut app = AppState::new();
    assert!(app.actions.is_empty());
    app.raise(Action(2));
    app.raise(Action(1));
    assert_eq!(app.actions, vec![Action(2), Action(1)]);
}

#[test]
fn create_pod_and_retire_are_recorded() {
    let mut ctx = ViewCtx::new();
    let first = ctx.create_pod(10u8);
    let second = ctx.create_pod(20u8);
    assert_eq!((first.id, first.widget), (WidgetId(0), 10));
    assert_eq!((second.id, second.widget), (WidgetId(1), 20));
    ctx.retire(first.id);
    assert_eq!(ctx.next_id, 2);
    assert_eq!(
        ctx.events,
        vec![
            Lifecycle::Created(WidgetId(0)),
            Lifecycle::Created(WidgetId(1)),
            Lifecycle::TornDown(WidgetId(0)),
        ]
    );
}

#[test]
fn checks_reject_a_tree_of_another_view() {
    let tree = build(three_levels(18.0, true));
    assert!(!three_levels(19.0, true).is_reflected_by(&tree.root));
    assert!(!three_levels(18.0, false).is_reflected_by(&tree.root));
    assert!(!leaf(true).is_reflected_by(&tree.root));
    assert!(!AnyView::Portal(portal(leaf(true))).is_reflected_by(&tree.root));
    let other = build(AnyView::Portal(portal(leaf(true))));
    assert!(!tree.state.tracks(&other.root));
    assert!(!other.state.tracks(&tree.root));
}
