use reconciler::element::{Element, Widget, WidgetMut};
use reconciler::id::WidgetId;
use reconciler::invalidation::{Invalidation, Journal, Signal};
use reconciler::message::{Action, AppState, MessageCtx, MessageResult};
use reconciler::style::Length;
use reconciler::view::backdrop_blur::backdrop_blur;
use reconciler::view::checkbox::checkbox;
use reconciler::view::portal::portal;
use reconciler::view::{AnyView, Lifecycle, ViewCtx};

fn leaf(checked: bool) -> AnyView {
    AnyView::Checkbox(checkbox(checked, Action(7)))
}

fn blur_of(element: &Element) -> &reconciler::widgets::backdrop_blur::BackdropBlur {
    match &element.widget {
        Widget::BackdropBlur(blur) => blur,
        other => panic!("not a backdrop blur: {:?}", other),
    }
}

#[test]
fn build_then_change_blur_radius_repaints_once() {
    let mut ctx = ViewCtx::new();
    let mut app = AppState::new();
    let mut journal = Journal::new();

    let first = AnyView::BackdropBlur(backdrop_blur(leaf(false)));
    let (mut root, mut state) = first.build(&mut ctx, &mut app);

    assert_eq!(blur_of(&root).blur_radius.to_bits(), 18.0f64.to_bits());
    assert_eq!(root.widget.children_ids().len(), 1);
    let created_root = ctx
        .events
        .iter()
        .filter(|event| **event == Lifecycle::Created(root.id))
        .count();
    assert_eq!(created_root, 1);
    assert_eq!(journal.len(), 0);

    let second = AnyView::BackdropBlur(
        backdrop_blur(leaf(false)).blur_radius(Length::from_bits(24.0f64.to_bits())),
    );
    let replaced = second.reconcile(&first, &mut state, &mut ctx, &mut root, &mut journal, &mut app);

    assert!(!replaced);
    assert_eq!(blur_of(&root).blur_radius.to_bits(), 24.0f64.to_bits());
    assert_eq!(journal.count(Invalidation::Render), 1);
    assert_eq!(journal.count(Invalidation::Layout), 0);
    assert_eq!(journal.count(Invalidation::Structure), 0);
    assert_eq!(
        journal.signals,
        vec![Signal { target: root.id, class: Invalidation::Render }]
    );
    assert_eq!(journal.level(root.id), Invalidation::Render);
}

#[test]
fn toggling_clip_lays_out_once() {
    let mut ctx = ViewCtx::new();
    let mut app = AppState::new();
    let mut journal = Journal::new();

    let first = AnyView::BackdropBlur(backdrop_blur(leaf(false)).clip_content(false));
    let (mut root, mut state) = first.build(&mut ctx, &mut app);
    assert!(!blur_of(&root).clip_content);

    let second = AnyView::BackdropBlur(backdrop_blur(leaf(false)).clip_content(true));
    second.reconcile(&first, &mut state, &mut ctx, &mut root, &mut journal, &mut app);

    assert!(blur_of(&root).clip_content);
    assert_eq!(journal.count(Invalidation::Layout), 1);
    assert_eq!(journal.count(Invalidation::Render), 0);
    assert_eq!(journal.count(Invalidation::Structure), 0);
    let level = journal.level(root.id);
    assert_eq!(level, Invalidation::Layout);
    assert!(level.needs_layout());
    assert!(level.needs_render());
    assert!(!level.needs_registration());
}

#[test]
fn child_of_another_kind_is_torn_down_then_built() {
    let mut ctx = ViewCtx::new();
    let mut app = AppState::new();
    let mut journal = Journal::new();

    let first = AnyView::Portal(portal(leaf(false)));
    let (mut root, mut state) = first.build(&mut ctx, &mut app);
    let old_child = root.widget.children_ids()[0];
    assert_eq!(old_child, WidgetId(0));
    assert_eq!(root.id, WidgetId(1));
    let built = ctx.events.len();

    let second = AnyView::Portal(portal(AnyView::BackdropBlur(backdrop_blur(leaf(false)))));
    let replaced = second.reconcile(&first, &mut state, &mut ctx, &mut root, &mut journal, &mut app);

    assert!(!replaced);
    assert_eq!(root.id, WidgetId(1));
    assert_eq!(
        ctx.events[built..].to_vec(),
        vec![
            Lifecycle::TornDown(WidgetId(0)),
            Lifecycle::Created(WidgetId(2)),
            Lifecycle::Created(WidgetId(3)),
        ]
    );
    assert_eq!(root.widget.children_ids(), vec![WidgetId(3)]);
    assert_eq!(
        journal.signals,
        vec![Signal { target: root.id, class: Invalidation::Structure }]
    );
    assert_eq!(journal.count_on(root.id, Invalidation::Structure), 1);
    assert_eq!(journal.len(), 1);
}

#[test]
fn message_for_a_removed_child_is_stale() {
    let mut ctx = ViewCtx::new();
    let mut app = AppState::new();
    let mut journal = Journal::new();

    let first = AnyView::Portal(portal(leaf(false)));
    let (mut root, mut state) = first.build(&mut ctx, &mut app);
    let captured = vec![root.id, root.widget.children_ids()[0]];

    let second = AnyView::Portal(portal(AnyView::BackdropBlur(backdrop_blur(leaf(false)))));
    second.reconcile(&first, &mut state, &mut ctx, &mut root, &mut journal, &mut app);

    let before = journal.len();
    let mut message = MessageCtx::new(captured);
    let result = second.message(
        &mut state,
        &mut message,
        WidgetMut::new(&mut root, &mut journal),
        &mut app,
    );
    assert_eq!(result, MessageResult::Stale);
    assert!(app.actions.is_empty());
    assert_eq!(journal.len(), before);
}

#[test]
fn three_levels_are_torn_down_leaves_first() {
    let mut ctx = ViewCtx::new();
    let mut app = AppState::new();
    let mut journal = Journal::new();

    let view = AnyView::Portal(portal(AnyView::BackdropBlur(backdrop_blur(leaf(true)))));
    let (mut root, mut state) = view.build(&mut ctx, &mut app);
    let middle = root.widget.children_ids()[0];
    let bottom = match &root.widget {
        Widget::Portal(portal) => portal.child.widget.children_ids()[0],
        other => panic!("not a portal: {:?}", other),
    };
    let built = ctx.events.len();
    assert_eq!(built, 3);

    view.teardown(&mut state, &mut ctx, WidgetMut::new(&mut root, &mut journal));

    assert_eq!(
        ctx.events[built..].to_vec(),
        vec![
            Lifecycle::TornDown(bottom),
            Lifecycle::TornDown(middle),
            Lifecycle::TornDown(root.id),
        ]
    );
    assert!(!state.live);
    assert_eq!(journal.len(), 0);
}
