//! Messages from the widget tree back to the application.

use vstd::prelude::*;
use crate::id::WidgetId;

verus! {

/// What became of a message.
#[derive(Clone, Copy, PartialEq, Eq, Structural, Debug)]
pub enum MessageResult {
    /// The widget that the message was for took it.
    Handled,
    /// The path of the message no longer leads anywhere: the tree changed
    /// after the message was raised. The message is to be dropped.
    Stale,
    /// The path ended at a widget that takes no messages, or the message
    /// named no widget at all.
    Unhandled,
}

/// What the application is asked to do when a widget takes a message: a
/// number that the application chose when it described the widget.
#[derive(Clone, Copy, PartialEq, Eq, Structural, Debug)]
pub struct Action(pub u64);

/// The application state as the views see it: the actions raised by the
/// messages handled so far, oldest first, for the application to act on.
pub struct AppState {
    pub actions: Vec<Action>,
}

impl View for AppState {
    type V = Seq<Action>;

    open spec fn view(&self) -> Seq<Action> {
        self.actions@
    }
}

impl AppState {
    /// A state with no action raised.
    pub fn new() -> (state: AppState)
        ensures
            state@ == Seq::<Action>::empty(),
    {
        AppState { actions: Vec::new() }
    }

    /// Raises one action.
    pub fn raise(&mut self, action: Action)
        ensures
            final(self)@ == old(self)@.push(action),
    {
        self.actions.push(action);
    }
}

/// A message on its way: the identifiers from the root of the tree down to
/// the widget that raised it, and how far along them the message has come.
pub struct MessageCtx {
    pub path: Vec<WidgetId>,
    pub cursor: usize,
}

impl View for MessageCtx {
    type V = Seq<WidgetId>;

    /// The part of the path that is still ahead.
    open spec fn view(&self) -> Seq<WidgetId> {
        if self.cursor <= self.path.len() {
            self.path@.subrange(self.cursor as int, self.path.len() as int)
        } else {
            Seq::empty()
        }
    }
}

impl MessageCtx {
    /// A message at the start of `path`.
    pub fn new(path: Vec<WidgetId>) -> (message: MessageCtx)
        ensures
            message@ == path@,
    {
        let message = MessageCtx { path, cursor: 0 };
        assert(message@ =~= path@);
        message
    }

    /// Whether the whole path lies behind.
    pub fn is_empty(&self) -> (r: bool)
        ensures
            r == (self@.len() == 0),
    {
        self.cursor >= self.path.len()
    }

    /// Takes the next identifier off the path; `None` when none is left.
    pub fn take_first(&mut self) -> (first: Option<WidgetId>)
        ensures
            old(self)@.len() == 0 ==> first.is_none() && final(self)@ == old(self)@,
            old(self)@.len() > 0 ==> first == Some(old(self)@[0]) && final(self)@ == old(
                self,
            )@.skip(1),
    {
        if self.cursor < self.path.len() {
            let id = self.path[self.cursor];
            self.cursor += 1;
            assert(self@ =~= old(self)@.skip(1));
            Some(id)
        } else {
            None
        }
    }
}

} // verus!
