use reconciler::element::{Element, Pod, RegisterCtx, Widget, WidgetKind, WidgetMut};
use reconciler::id::WidgetId;
use reconciler::invalidation::{Invalidation, Journal, Signal};
use reconciler::passes::{LayoutStep, PaintStep, Role};
use reconciler::style::{Color, Length};
use reconciler::widgets::backdrop_blur::BackdropBlur;
use reconciler::widgets::checkbox::Checkbox;
use reconciler::widgets::portal::Portal;

fn length(value: f64) -> Length {
    Length::from_bits(value.to_bits())
}

fn leaf(id: u64) -> Element {
    Pod { id: WidgetId(id), widget: Widget::Checkbox(Checkbox::new(false)) }
}

#[test]
fn length_keeps_its_bits() {
    assert_eq!(length(18.0).to_bits(), 18.0f64.to_bits());
    assert_eq!(f64::from_bits(length(24.5).to_bits()), 24.5);
    assert_ne!(length(0.0), length(-0.0));
    assert_eq!(length(f64::NAN), length(f64::NAN));
}

#[test]
fn length_is_positive_as_the_number_is() {
    let values = [
        18.0,
        0.0,
        -0.0,
        -3.5,
        f64::MIN_POSITIVE,
        5e-324,
        f64::MAX,
        f64::INFINITY,
        f64::NEG_INFINITY,
        f64::NAN,
        -f64::NAN,
    ];
    for value in values {
        assert_eq!(length(value).positive(), value.max(0.0) > 0.0, "{}", value);
    }
}

#[test]
fn color_shows_unless_alpha_is_zero() {
    let color = Color::from_rgba8(1, 2, 3, 4);
    assert_eq!((color.r, color.g, color.b, color.a), (1, 2, 3, 4));
    assert!(color.visible());
    assert!(!Color::from_rgba8(255, 255, 255, 0).visible());
}

#[test]
fn new_backdrop_blur_has_the_defaults() {
    let widget = BackdropBlur::new(leaf(3));
    assert_eq!(widget.blur_radius, length(18.0));
    assert_eq!(widget.tint, Color::from_rgba8(0xff, 0xff, 0xff, 0x24));
    assert!(widget.clip_content);
    assert_eq!(widget.child.id, WidgetId(3));
    assert_eq!(widget.children_ids(), vec![WidgetId(3)]);
}

#[test]
fn backdrop_blur_builders_set_one_property_each() {
    let tint = Color::from_rgba8(9, 8, 7, 6);
    let widget = BackdropBlur::new(leaf(0)).blur_radius(length(2.0)).tint(tint).clip_content(false);
    assert_eq!(widget.blur_radius, length(2.0));
    assert_eq!(widget.tint, tint);
    assert!(!widget.clip_content);
    assert_eq!(widget.child.id, WidgetId(0));
}

#[test]
fn setting_a_property_twice_signals_once() {
    let mut pod = Pod { id: WidgetId(5), widget: BackdropBlur::new(leaf(4)) };
    let mut journal = Journal::new();
    {
        let mut handle = WidgetMut::new(&mut pod, &mut journal);
        BackdropBlur::set_blur_radius(&mut handle, length(24.0));
        BackdropBlur::set_blur_radius(&mut handle, length(24.0));
    }
    assert_eq!(pod.widget.blur_radius, length(24.0));
    assert_eq!(journal.signals, vec![Signal { target: WidgetId(5), class: Invalidation::Render }]);
}

#[test]
fn setting_the_current_value_signals_nothing() {
    let mut pod = Pod { id: WidgetId(5), widget: BackdropBlur::new(leaf(4)) };
    let mut journal = Journal::new();
    {
        let mut handle = WidgetMut::new(&mut pod, &mut journal);
        BackdropBlur::set_blur_radius(&mut handle, length(18.0));
        BackdropBlur::set_tint(&mut handle, Color::from_rgba8(0xff, 0xff, 0xff, 0x24));
        BackdropBlur::set_clip_content(&mut handle, true);
    }
    assert_eq!(journal.len(), 0);
    assert_eq!(pod.widget, BackdropBlur::new(leaf(4)));
}

#[test]
fn each_setter_asks_for_its_own_class() {
    let mut pod = Pod { id: WidgetId(5), widget: BackdropBlur::new(leaf(4)) };
    let mut journal = Journal::new();
    {
        let mut handle = WidgetMut::new(&mut pod, &mut journal);
        BackdropBlur::set_tint(&mut handle, Color::from_rgba8(0, 0, 0, 0));
        BackdropBlur::set_clip_content(&mut handle, false);
        BackdropBlur::set_blur_radius(&mut handle, length(1.0));
    }
    let classes: Vec<Invalidation> = journal.signals.iter().map(|signal| signal.class).collect();
    assert_eq!(classes, vec![Invalidation::Render, Invalidation::Layout, Invalidation::Render]);
    assert!(journal.signals.iter().all(|signal| signal.target == WidgetId(5)));
    assert_eq!(journal.level(WidgetId(5)), Invalidation::Layout);
}

#[test]
fn set_child_replaces_and_signals_structure_once() {
    let mut pod = Pod { id: WidgetId(5), widget: BackdropBlur::new(leaf(4)) };
    let mut journal = Journal::new();
    {
        let mut handle = WidgetMut::new(&mut pod, &mut journal);
        BackdropBlur::set_child(&mut handle, leaf(6));
    }
    assert_eq!(pod.widget.children_ids(), vec![WidgetId(6)]);
    assert_eq!(
        journal.signals,
        vec![Signal { target: WidgetId(5), class: Invalidation::Structure }]
    );
    assert!(journal.level(WidgetId(5)).needs_registration());
    assert!(journal.level(WidgetId(5)).needs_layout());
}

#[test]
fn child_mut_changes_the_child_in_place() {
    let mut pod = Pod { id: WidgetId(5), widget: BackdropBlur::new(leaf(4)) };
    let mut journal = Journal::new();
    {
        let mut handle = WidgetMut::new(&mut pod, &mut journal);
        let child = BackdropBlur::child_mut(&mut handle);
        let mut checkbox = child.into_checkbox();
        Checkbox::set_checked(&mut checkbox, true);
        Checkbox::set_checked(&mut checkbox, true);
    }
    assert_eq!(pod.widget.child.widget, Widget::Checkbox(Checkbox::new(true)));
    assert_eq!(pod.widget.child.id, WidgetId(4));
    assert_eq!(journal.signals, vec![Signal { target: WidgetId(4), class: Invalidation::Render }]);
}

#[test]
fn pre_paint_blurs_for_a_positive_radius() {
    let widget = BackdropBlur::new(leaf(0));
    assert_eq!(
        widget.pre_paint(),
        vec![
            PaintStep::BoxShadow,
            PaintStep::Blur { tint: Color::from_rgba8(0xff, 0xff, 0xff, 0x24), radius: length(18.0) },
            PaintStep::Background,
            PaintStep::Border,
        ]
    );
    assert!(widget.paint().is_empty());
}

#[test]
fn pre_paint_fills_without_a_radius() {
    for radius in [0.0, -4.0, f64::NAN] {
        let widget = BackdropBlur::new(leaf(0)).blur_radius(length(radius));
        assert_eq!(
            widget.pre_paint(),
            vec![
                PaintStep::BoxShadow,
                PaintStep::Fill { tint: Color::from_rgba8(0xff, 0xff, 0xff, 0x24) },
                PaintStep::Background,
                PaintStep::Border,
            ]
        );
    }
}

#[test]
fn pre_paint_skips_an_invisible_tint() {
    let widget =
        BackdropBlur::new(leaf(0)).blur_radius(length(0.0)).tint(Color::from_rgba8(1, 1, 1, 0));
    assert_eq!(
        widget.pre_paint(),
        vec![PaintStep::BoxShadow, PaintStep::Background, PaintStep::Border]
    );
}

#[test]
fn layout_clips_as_the_flag_says() {
    let id = WidgetId(7);
    let clipped = BackdropBlur::new(leaf(7));
    assert_eq!(
        clipped.layout(),
        vec![
            LayoutStep::RunLayout(id),
            LayoutStep::PlaceAtOrigin(id),
            LayoutStep::AdoptBaseline(id),
            LayoutStep::ClipToBounds,
        ]
    );
    let open = BackdropBlur::new(leaf(7)).clip_content(false);
    assert_eq!(open.layout().last(), Some(&LayoutStep::ClearClip));
    assert_eq!(open.layout().len(), 4);
}

#[test]
fn backdrop_blur_is_a_generic_container() {
    let widget = BackdropBlur::new(leaf(0));
    assert_eq!(widget.accessibility_role(), Role::GenericContainer);
}

#[test]
fn each_kind_of_widget_has_its_role() {
    assert_eq!(Portal::new(leaf(0)).accessibility_role(), Role::GenericContainer);
    assert_eq!(Checkbox::new(true).accessibility_role(), Role::CheckBox);
    assert_eq!(
        Widget::BackdropBlur(BackdropBlur::new(leaf(0))).accessibility_role(),
        Role::GenericContainer
    );
    assert_eq!(Widget::Portal(Portal::new(leaf(0))).accessibility_role(), Role::GenericContainer);
    assert_eq!(Widget::Checkbox(Checkbox::new(false)).accessibility_role(), Role::CheckBox);
}

#[test]
fn register_children_names_each_child_once() {
    let mut ctx = RegisterCtx::new();
    let blur = Widget::BackdropBlur(BackdropBlur::new(leaf(2)));
    let portal = Widget::Portal(Portal::new(leaf(8)));
    let checkbox = Widget::Checkbox(Checkbox::new(true));
    blur.register_children(&mut ctx);
    checkbox.register_children(&mut ctx);
    portal.register_children(&mut ctx);
    assert_eq!(ctx.registered, vec![WidgetId(2), WidgetId(8)]);
    assert_eq!(blur.children_ids(), vec![WidgetId(2)]);
    assert_eq!(portal.children_ids(), vec![WidgetId(8)]);
    assert!(checkbox.children_ids().is_empty());
}

#[test]
fn widgets_know_their_kind() {
    assert_eq!(Widget::BackdropBlur(BackdropBlur::new(leaf(2))).kind_of(), WidgetKind::BackdropBlur);
    assert_eq!(Widget::Portal(Portal::new(leaf(2))).kind_of(), WidgetKind::Portal);
    assert_eq!(Widget::Checkbox(Checkbox::new(false)).kind_of(), WidgetKind::Checkbox);
}

#[test]
fn new_portal_has_every_flag_off() {
    let widget = Portal::new(leaf(1));
    assert!(!widget.constrain_horizontal);
    assert!(!widget.constrain_vertical);
    assert!(!widget.must_fill);
    assert!(!widget.right_to_left);
    let widget = widget.constrain_horizontal(true).with_rtl(true);
    assert!(widget.constrain_horizontal);
    assert!(!widget.constrain_vertical);
    assert!(widget.right_to_left);
    let widget = widget.constrain_vertical(true).content_must_fill(true);
    assert!(widget.constrain_vertical);
    assert!(widget.must_fill);
}

#[test]
fn portal_setters_ask_for_layout() {
    let mut pod = Pod { id: WidgetId(3), widget: Portal::new(leaf(1)) };
    let mut journal = Journal::new();
    {
        let mut handle = WidgetMut::new(&mut pod, &mut journal);
        Portal::set_constrain_horizontal(&mut handle, true);
        Portal::set_constrain_vertical(&mut handle, false);
        Portal::set_content_must_fill(&mut handle, true);
        Portal::set_rtl(&mut handle, true);
        Portal::set_rtl(&mut handle, true);
    }
    assert!(pod.widget.constrain_horizontal);
    assert!(!pod.widget.constrain_vertical);
    assert!(pod.widget.must_fill);
    assert!(pod.widget.right_to_left);
    assert_eq!(journal.count(Invalidation::Layout), 3);
    assert_eq!(journal.len(), 3);
}

#[test]
fn portal_set_child_signals_structure() {
    let mut pod = Pod { id: WidgetId(3), widget: Portal::new(leaf(1)) };
    let mut journal = Journal::new();
    {
        let mut handle = WidgetMut::new(&mut pod, &mut journal);
        Portal::set_child(&mut handle, leaf(9));
    }
    assert_eq!(pod.widget.child.id, WidgetId(9));
    assert_eq!(journal.count_on(WidgetId(3), Invalidation::Structure), 1);
    assert_eq!(journal.len(), 1);
}

#[test]
fn erased_keeps_identifier_and_widget() {
    let pod = Pod { id: WidgetId(3), widget: Portal::new(leaf(1)) };
    let element = pod.erased();
    assert_eq!(element.id, WidgetId(3));
    assert_eq!(element.widget, Widget::Portal(Portal::new(leaf(1))));
    let handle_target = Pod { id: WidgetId(1), widget: Checkbox::new(true) }.erased();
    assert_eq!(handle_target.widget.kind_of(), WidgetKind::Checkbox);
}
