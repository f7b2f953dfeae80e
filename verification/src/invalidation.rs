//! Invalidation classes and the journal of pending work.
//!
//! A change to a widget asks for one of three kinds of work: a repaint, a new
//! layout (which repaints too), or a new registration of children (which lays
//! out and repaints too). The journal keeps every request of a pass in order;
//! the state of one widget is the strongest request made for it so far.

use vstd::prelude::*;
use crate::id::WidgetId;

verus! {

/// How much of a widget has to be redone, from nothing to everything.
#[derive(Clone, Copy, PartialEq, Eq, Structural, Debug)]
pub enum Invalidation {
    /// Nothing is pending.
    Clean,
    /// The widget must be painted again.
    Render,
    /// The widget must be laid out again, and then painted.
    Layout,
    /// The children of the widget changed: they must be registered again,
    /// and the widget laid out and painted.
    Structure,
}

impl Invalidation {
    /// Position in the order `Clean < Render < Layout < Structure`.
    pub open spec fn rank(self) -> nat {
        match self {
            Invalidation::Clean => 0,
            Invalidation::Render => 1,
            Invalidation::Layout => 2,
            Invalidation::Structure => 3,
        }
    }

    /// The stronger of two classes.
    pub open spec fn join(self, other: Invalidation) -> Invalidation {
        if self.rank() >= other.rank() {
            self
        } else {
            other
        }
    }

    /// Position in the order `Clean < Render < Layout < Structure`.
    pub fn severity(self) -> (r: u8)
        ensures
            r == self.rank(),
    {
        match self {
            Invalidation::Clean => 0,
            Invalidation::Render => 1,
            Invalidation::Layout => 2,
            Invalidation::Structure => 3,
        }
    }

    /// The state after `request` is made in state `self`: never weaker than
    /// either.
    pub fn escalate(self, request: Invalidation) -> (r: Invalidation)
        ensures
            r == self.join(request),
    {
        if self.severity() >= request.severity() {
            self
        } else {
            request
        }
    }

    /// Whether a repaint is pending.
    pub fn needs_render(self) -> (r: bool)
        ensures
            r == (self.rank() >= Invalidation::Render.rank()),
    {
        self.severity() >= 1
    }

    /// Whether a layout is pending.
    pub fn needs_layout(self) -> (r: bool)
        ensures
            r == (self.rank() >= Invalidation::Layout.rank()),
    {
        self.severity() >= 2
    }

    /// Whether the children must be registered again.
    pub fn needs_registration(self) -> (r: bool)
        ensures
            r == (self.rank() >= Invalidation::Structure.rank()),
    {
        self.severity() >= 3
    }
}

/// One request for work on one widget.
#[derive(Clone, Copy, PartialEq, Eq, Structural, Debug)]
pub struct Signal {
    pub target: WidgetId,
    pub class: Invalidation,
}

/// The state of widget `id` after the requests `signals`: the strongest class
/// requested for it.
pub open spec fn level_of(signals: Seq<Signal>, id: WidgetId) -> Invalidation
    decreases signals.len(),
{
    if signals.len() == 0 {
        Invalidation::Clean
    } else if signals.last().target == id {
        level_of(signals.drop_last(), id).join(signals.last().class)
    } else {
        level_of(signals.drop_last(), id)
    }
}

/// How many of `signals` ask for exactly `class`, whatever their target.
pub open spec fn count_of(signals: Seq<Signal>, class: Invalidation) -> nat
    decreases signals.len(),
{
    if signals.len() == 0 {
        0
    } else if signals.last().class == class {
        count_of(signals.drop_last(), class) + 1
    } else {
        count_of(signals.drop_last(), class)
    }
}

/// How many of `signals` ask for exactly `class` on widget `id`.
pub open spec fn count_for(signals: Seq<Signal>, id: WidgetId, class: Invalidation) -> nat
    decreases signals.len(),
{
    if signals.len() == 0 {
        0
    } else if signals.last().target == id && signals.last().class == class {
        count_for(signals.drop_last(), id, class) + 1
    } else {
        count_for(signals.drop_last(), id, class)
    }
}

/// A widget's state only escalates while requests are added.
pub proof fn lemma_level_monotonic(before: Seq<Signal>, after: Seq<Signal>, id: WidgetId)
    requires
        before.is_prefix_of(after),
    ensures
        level_of(before, id).rank() <= level_of(after, id).rank(),
    decreases after.len(),
{
    if before.len() == after.len() {
        assert(before =~= after);
    } else {
        assert(before.is_prefix_of(after.drop_last()));
        lemma_level_monotonic(before, after.drop_last(), id);
    }
}

/// The state after one more request: the request joins the state of its
/// target and leaves every other widget as it was.
pub proof fn lemma_level_push(signals: Seq<Signal>, signal: Signal, id: WidgetId)
    ensures
        level_of(signals.push(signal), id) == if signal.target == id {
            level_of(signals, id).join(signal.class)
        } else {
            level_of(signals, id)
        },
{
    assert(signals.push(signal).drop_last() =~= signals);
}

/// The requests for work made since the journal was last cleared, oldest
/// first.
pub struct Journal {
    pub signals: Vec<Signal>,
}

impl View for Journal {
    type V = Seq<Signal>;

    open spec fn view(&self) -> Seq<Signal> {
        self.signals@
    }
}

impl Journal {
    /// A journal with nothing pending.
    pub fn new() -> (journal: Journal)
        ensures
            journal@ == Seq::<Signal>::empty(),
    {
        Journal { signals: Vec::new() }
    }

    /// Adds one request. The state of the target moves forward to `class`
    /// unless it is there or further already; no state moves back.
    pub fn record(&mut self, target: WidgetId, class: Invalidation)
        ensures
            final(self)@ == old(self)@.push(Signal { target, class }),
            level_of(final(self)@, target) == level_of(old(self)@, target).join(class),
            forall|id: WidgetId|
                level_of(old(self)@, id).rank() <= (#[trigger] level_of(final(self)@, id)).rank(),
    {
        self.signals.push(Signal { target, class });
        proof {
            lemma_level_push(old(self)@, Signal { target, class }, target);
            assert forall|id: WidgetId|
                level_of(old(self)@, id).rank() <= (#[trigger] level_of(self@, id)).rank() by {
                lemma_level_push(old(self)@, Signal { target, class }, id);
            }
        }
    }

    /// The number of requests held.
    pub fn len(&self) -> (n: usize)
        ensures
            n == self@.len(),
    {
        self.signals.len()
    }

    /// The state of widget `id`: `Clean` when nothing was requested for it.
    pub fn level(&self, id: WidgetId) -> (level: Invalidation)
        ensures
            level == level_of(self@, id),
    {
        let mut level = Invalidation::Clean;
        let mut i: usize = 0;
        while i < self.signals.len()
            invariant
                i <= self.signals.len(),
                level == level_of(self@.take(i as int), id),
            decreases self.signals.len() - i,
        {
            let signal = self.signals[i];
            assert(self@.take(i + 1).drop_last() =~= self@.take(i as int));
            if signal.target == id {
                level = level.escalate(signal.class);
            }
            i += 1;
        }
        assert(self@.take(i as int) =~= self@);
        level
    }

    /// The number of requests of exactly `class`.
    pub fn count(&self, class: Invalidation) -> (n: usize)
        ensures
            n == count_of(self@, class),
    {
        let mut n: usize = 0;
        let mut i: usize = 0;
        while i < self.signals.len()
            invariant
                i <= self.signals.len(),
                n <= i,
                n == count_of(self@.take(i as int), class),
            decreases self.signals.len() - i,
        {
            assert(self@.take(i + 1).drop_last() =~= self@.take(i as int));
            if self.signals[i].class == class {
                n += 1;
            }
            i += 1;
        }
        assert(self@.take(i as int) =~= self@);
        n
    }

    /// The number of requests of exactly `class` for widget `id`.
    pub fn count_on(&self, id: WidgetId, class: Invalidation) -> (n: usize)
        ensures
            n == count_for(self@, id, class),
    {
        let mut n: usize = 0;
        let mut i: usize = 0;
        while i < self.signals.len()
            invariant
                i <= self.signals.len(),
                n <= i,
                n == count_for(self@.take(i as int), id, class),
            decreases self.signals.len() - i,
        {
            assert(self@.take(i + 1).drop_last() =~= self@.take(i as int));
            if self.signals[i].target == id && self.signals[i].class == class {
                n += 1;
            }
            i += 1;
        }
        assert(self@.take(i as int) =~= self@);
        n
    }

    /// Forgets every request: the passes that do the work call this once they
    /// have taken the journal over, and every widget is `Clean` again.
    pub fn clear(&mut self)
        ensures
            final(self)@ == Seq::<Signal>::empty(),
    {
        self.signals.clear();
    }
}

} // verus!
