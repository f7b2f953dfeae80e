//! The retained tree: widgets, the elements that own them, and the handle
//! through which a live widget is changed.

use vstd::prelude::*;
use crate::id::WidgetId;
use crate::invalidation::{Invalidation, Journal, Signal};
use crate::passes::Role;
use crate::widgets::backdrop_blur::BackdropBlur;
use crate::widgets::checkbox::Checkbox;
use crate::widgets::portal::Portal;

verus! {

/// The kinds of widget that the tree can hold.
#[derive(Clone, Copy, PartialEq, Eq, Structural, Debug)]
pub enum WidgetKind {
    Portal,
    BackdropBlur,
    Checkbox,
}

/// A widget of any kind.
#[derive(Debug, PartialEq, Eq)]
pub enum Widget {
    Portal(Portal),
    BackdropBlur(BackdropBlur),
    Checkbox(Checkbox),
}

/// A widget together with the identifier under which the tree knows it.
#[derive(Debug, PartialEq, Eq)]
pub struct Pod<W> {
    pub id: WidgetId,
    pub widget: W,
}

/// A node of the retained tree: a widget of any kind, with its identifier
/// and, inside the widget, the elements of its children.
pub type Element = Pod<Widget>;

impl Widget {
    /// The kind of the widget.
    pub open spec fn kind(self) -> WidgetKind {
        match self {
            Widget::Portal(_) => WidgetKind::Portal,
            Widget::BackdropBlur(_) => WidgetKind::BackdropBlur,
            Widget::Checkbox(_) => WidgetKind::Checkbox,
        }
    }

    /// The child of the widget, if it is a container.
    pub open spec fn child(self) -> Option<Element> {
        match self {
            Widget::Portal(portal) => Some(*portal.child),
            Widget::BackdropBlur(blur) => Some(*blur.child),
            Widget::Checkbox(_) => None,
        }
    }

    /// The role under which assistive technology sees the widget: a check
    /// box for a checkbox, a generic container for each container.
    pub open spec fn role(self) -> Role {
        match self {
            Widget::Portal(_) => Role::GenericContainer,
            Widget::BackdropBlur(_) => Role::GenericContainer,
            Widget::Checkbox(_) => Role::CheckBox,
        }
    }

    /// The identifiers of the children, in order.
    pub open spec fn child_ids(self) -> Seq<WidgetId> {
        match self.child() {
            Some(child) => seq![child.id],
            None => Seq::empty(),
        }
    }

    /// The kind of the widget.
    pub fn kind_of(&self) -> (kind: WidgetKind)
        ensures
            kind == self.kind(),
    {
        match self {
            Widget::Portal(_) => WidgetKind::Portal,
            Widget::BackdropBlur(_) => WidgetKind::BackdropBlur,
            Widget::Checkbox(_) => WidgetKind::Checkbox,
        }
    }

    /// The role under which assistive technology sees the widget.
    pub fn accessibility_role(&self) -> (role: Role)
        ensures
            role == self.role(),
    {
        match self {
            Widget::Portal(portal) => portal.accessibility_role(),
            Widget::BackdropBlur(blur) => blur.accessibility_role(),
            Widget::Checkbox(checkbox) => checkbox.accessibility_role(),
        }
    }

    /// The identifiers of the children, in order: what the passes that walk
    /// the tree go by, whatever the kind of the widget.
    pub fn children_ids(&self) -> (ids: Vec<WidgetId>)
        ensures
            ids@ == self.child_ids(),
    {
        match self {
            Widget::Portal(portal) => portal.children_ids(),
            Widget::BackdropBlur(blur) => blur.children_ids(),
            Widget::Checkbox(checkbox) => checkbox.children_ids(),
        }
    }

    /// Registers the children with the tree manager, in order.
    pub fn register_children(&self, ctx: &mut RegisterCtx)
        ensures
            final(ctx).registered@ == old(ctx).registered@ + self.child_ids(),
    {
        match self {
            Widget::Portal(portal) => portal.register_children(ctx),
            Widget::BackdropBlur(blur) => blur.register_children(ctx),
            Widget::Checkbox(checkbox) => checkbox.register_children(ctx),
        }
    }
}

impl Pod<Widget> {
    /// The number of elements in the tree under this one, itself included.
    pub open spec fn size(self) -> nat
        decreases self,
    {
        match self.widget.child() {
            Some(child) => child.size() + 1,
            None => 1,
        }
    }

    /// The identifiers in the tree, each parent before its children.
    pub open spec fn ids(self) -> Seq<WidgetId>
        decreases self,
    {
        match self.widget.child() {
            Some(child) => seq![self.id] + child.ids(),
            None => seq![self.id],
        }
    }

    /// The identifiers in the tree, all children before their parent.
    pub open spec fn post_order(self) -> Seq<WidgetId>
        decreases self,
    {
        match self.widget.child() {
            Some(child) => child.post_order().push(self.id),
            None => seq![self.id],
        }
    }

    /// The kinds in the tree, each parent before its children: the shape of
    /// the tree.
    pub open spec fn shape(self) -> Seq<WidgetKind>
        decreases self,
    {
        match self.widget.child() {
            Some(child) => seq![self.widget.kind()] + child.shape(),
            None => seq![self.widget.kind()],
        }
    }

    /// Whether the tree holds each identifier once, and only identifiers
    /// issued while `next` was still to come.
    pub open spec fn issued_before(self, next: u64) -> bool {
        &&& self.ids().no_duplicates()
        &&& forall|i: int| 0 <= i < self.ids().len() ==> (#[trigger] self.ids()[i]).0 < next
    }

    /// The element `depth` levels below this one; the deepest one for a
    /// greater `depth`.
    pub open spec fn descendant(self, depth: nat) -> Element
        decreases depth,
    {
        if depth == 0 {
            self
        } else {
            match self.widget.child() {
                Some(child) => child.descendant((depth - 1) as nat),
                None => self,
            }
        }
    }
}

/// What a widget registers its children with when its structure changed.
pub struct RegisterCtx {
    pub registered: Vec<WidgetId>,
}

impl RegisterCtx {
    /// A context with nothing registered.
    pub fn new() -> (ctx: RegisterCtx)
        ensures
            ctx.registered@ == Seq::<WidgetId>::empty(),
    {
        RegisterCtx { registered: Vec::new() }
    }

    /// Registers one child.
    pub fn register_child(&mut self, child: &Element)
        ensures
            final(self).registered@ == old(self).registered@.push(child.id),
    {
        self.registered.push(child.id);
    }
}

/// The part of a mutation handle that reports: it knows the identifier of
/// the widget being changed and the journal that takes the requests.
pub struct MutateCtx<'a> {
    pub id: WidgetId,
    pub journal: &'a mut Journal,
}

impl<'a> MutateCtx<'a> {
    /// Asks for a repaint of the widget.
    pub fn request_render(&mut self)
        ensures
            final(self).id == old(self).id,
            final(self).journal@ == old(self).journal@.push(
                Signal { target: old(self).id, class: Invalidation::Render },
            ),
            *final(final(self).journal) == *final(old(self).journal),
    {
        self.journal.record(self.id, Invalidation::Render);
    }

    /// Asks for a new layout of the widget.
    pub fn request_layout(&mut self)
        ensures
            final(self).id == old(self).id,
            final(self).journal@ == old(self).journal@.push(
                Signal { target: old(self).id, class: Invalidation::Layout },
            ),
            *final(final(self).journal) == *final(old(self).journal),
    {
        self.journal.record(self.id, Invalidation::Layout);
    }

    /// Reports that the children of the widget are no longer the same.
    pub fn children_changed(&mut self)
        ensures
            final(self).id == old(self).id,
            final(self).journal@ == old(self).journal@.push(
                Signal { target: old(self).id, class: Invalidation::Structure },
            ),
            *final(final(self).journal) == *final(old(self).journal),
    {
        self.journal.record(self.id, Invalidation::Structure);
    }
}

/// The mutation handle: a borrow of one live widget, for the length of one
/// step, through which every change to it is made and reported.
pub struct WidgetMut<'a, W> {
    pub ctx: MutateCtx<'a>,
    pub widget: &'a mut W,
}

impl<'a, W> WidgetMut<'a, W> {
    /// The identifier of the widget behind the handle.
    pub open spec fn id(&self) -> WidgetId {
        self.ctx.id
    }

    /// The widget as it is now.
    pub open spec fn now(&self) -> W {
        *self.widget
    }

    /// The widget as it is now, with its identifier.
    pub open spec fn pod(&self) -> Pod<W> {
        Pod { id: self.ctx.id, widget: *self.widget }
    }

    /// The requests made so far.
    pub open spec fn signals(&self) -> Seq<Signal> {
        self.ctx.journal@
    }

    /// A handle on the widget of `pod` that reports to `journal`.
    pub fn new(pod: &'a mut Pod<W>, journal: &'a mut Journal) -> (handle: WidgetMut<'a, W>)
        ensures
            handle.id() == old(pod).id,
            handle.now() == old(pod).widget,
            handle.signals() == old(journal)@,
            final(pod).id == old(pod).id,
            final(pod).widget == *final(handle.widget),
            *final(journal) == *final(handle.ctx.journal),
    {
        WidgetMut { ctx: MutateCtx { id: pod.id, journal }, widget: &mut pod.widget }
    }
}

impl<'a> WidgetMut<'a, Widget> {
    /// The handle as one on a portal.
    pub fn into_portal(self) -> (handle: WidgetMut<'a, Portal>)
        requires
            self.now() is Portal,
        ensures
            handle.id() == self.id(),
            handle.now() == self.now()->Portal_0,
            handle.signals() == self.signals(),
            *final(self.widget) == Widget::Portal(*final(handle.widget)),
            *final(self.ctx.journal) == *final(handle.ctx.journal),
    {
        let WidgetMut { ctx, widget } = self;
        match widget {
            Widget::Portal(portal) => WidgetMut { ctx, widget: portal },
            _ => vstd::pervasive::unreached(),
        }
    }

    /// The handle as one on a backdrop blur.
    pub fn into_backdrop_blur(self) -> (handle: WidgetMut<'a, BackdropBlur>)
        requires
            self.now() is BackdropBlur,
        ensures
            handle.id() == self.id(),
            handle.now() == self.now()->BackdropBlur_0,
            handle.signals() == self.signals(),
            *final(self.widget) == Widget::BackdropBlur(*final(handle.widget)),
            *final(self.ctx.journal) == *final(handle.ctx.journal),
    {
        let WidgetMut { ctx, widget } = self;
        match widget {
            Widget::BackdropBlur(blur) => WidgetMut { ctx, widget: blur },
            _ => vstd::pervasive::unreached(),
        }
    }

    /// The handle as one on a checkbox.
    pub fn into_checkbox(self) -> (handle: WidgetMut<'a, Checkbox>)
        requires
            self.now() is Checkbox,
        ensures
            handle.id() == self.id(),
            handle.now() == self.now()->Checkbox_0,
            handle.signals() == self.signals(),
            *final(self.widget) == Widget::Checkbox(*final(handle.widget)),
            *final(self.ctx.journal) == *final(handle.ctx.journal),
    {
        let WidgetMut { ctx, widget } = self;
        match widget {
            Widget::Checkbox(checkbox) => WidgetMut { ctx, widget: checkbox },
            _ => vstd::pervasive::unreached(),
        }
    }
}

} // verus!
