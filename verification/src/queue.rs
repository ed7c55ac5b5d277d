use vstd::prelude::*;

use std::collections::VecDeque;

use crate::event::L1Event;

verus! {

/// Ordered handoff of produced events to consumers. Arrival order is
/// kept. Closing the queue makes every later push a no-op while
/// whatever is already queued can still be taken, so that a closed
/// queue drains to empty and stays empty.
pub struct EventQueue<H, T> {
    /// Queued events, oldest first.
    pub items: VecDeque<L1Event<H, T>>,
    /// Whether the queue has stopped accepting events.
    pub closed: bool,
}

/// The state, as the pair (queued events, closed), that one close
/// settles a queue into.
pub open spec fn close_step<H, T>(events: Seq<L1Event<H, T>>, closed: bool) -> (
    Seq<L1Event<H, T>>,
    bool,
) {
    (events, true)
}

/// The state that one push moves a queue to: the event joins the back
/// of an open queue and is absorbed by a closed one.
pub open spec fn push_step<H, T>(
    events: Seq<L1Event<H, T>>,
    closed: bool,
    event: L1Event<H, T>,
) -> (Seq<L1Event<H, T>>, bool) {
    if closed {
        (events, closed)
    } else {
        (events.push(event), closed)
    }
}

impl<H, T> EventQueue<H, T> {
    /// The queued events, oldest first, as seen by contracts.
    pub open spec fn events(self) -> Seq<L1Event<H, T>> {
        self.items@
    }

    /// Creates an open, empty queue.
    pub fn new() -> (q: EventQueue<H, T>)
        ensures
            q.events() == Seq::<L1Event<H, T>>::empty(),
            !q.closed,
    {
        EventQueue { items: VecDeque::new(), closed: false }
    }

    /// Appends an event, unless the queue is closed; a closed queue
    /// absorbs the push without effect.
    pub fn push(&mut self, event: L1Event<H, T>)
        ensures
            (final(self).events(), final(self).closed) == push_step(
                old(self).events(),
                old(self).closed,
                event,
            ),
    {
        if !self.closed {
            self.items.push_back(event);
        }
    }

    /// Takes the oldest queued event, or nothing if the queue is empty.
    /// Never blocks.
    pub fn pop(&mut self) -> (r: Option<L1Event<H, T>>)
        ensures
            final(self).closed == old(self).closed,
            old(self).events().len() == 0 ==> r is None && final(self).events() == old(self).events(),
            old(self).events().len() > 0 ==> r == Some(old(self).events()[0])
                && final(self).events() == old(self).events().drop_first(),
    {
        self.items.pop_front()
    }

    /// Removes and returns everything currently queued, in arrival
    /// order; an empty queue yields an empty sequence. Never blocks.
    pub fn drain(&mut self) -> (out: Vec<L1Event<H, T>>)
        ensures
            final(self).closed == old(self).closed,
            out@ == old(self).events(),
            final(self).events() == Seq::<L1Event<H, T>>::empty(),
    {
        let mut out: Vec<L1Event<H, T>> = Vec::new();
        while self.items.len() > 0
            invariant
                self.closed == old(self).closed,
                out@ + self.items@ == old(self).items@,
            decreases self.items.len(),
        {
            if let Some(event) = self.items.pop_front() {
                out.push(event);
                proof {
                    assert(out@ + self.items@ =~= old(self).items@);
                }
            }
        }
        proof {
            assert(out@ =~= old(self).items@);
        }
        out
    }

    /// Stops the queue accepting events. Already-queued events remain
    /// takeable. Closing an already-closed queue changes nothing.
    pub fn close(&mut self)
        ensures
            (final(self).events(), final(self).closed) == close_step(
                old(self).events(),
                old(self).closed,
            ),
    {
        self.closed = true;
    }

    /// Returns how many events are queued.
    pub fn len(&self) -> (n: usize)
        ensures
            n == self.events().len(),
    {
        self.items.len()
    }
}

/// Pushes append at the back in call order, and `pop` and `drain` take
/// from the front, so consumers see events exactly in push order.
pub proof fn lemma_queue_order<H, T>(
    events: Seq<L1Event<H, T>>,
    first: L1Event<H, T>,
    second: L1Event<H, T>,
)
    ensures
        ({
            let once = push_step(events, false, first);
            let twice = push_step(once.0, once.1, second);
            twice.0 == events.push(first).push(second)
        }),
{
}

/// Shutting the queue down is idempotent, and afterwards no further
/// events appear: a second close leaves the state of the first close
/// exactly as it was, and a push on the closed queue leaves the queued
/// events untouched.
pub proof fn lemma_close_idempotent<H, T>(
    events: Seq<L1Event<H, T>>,
    closed: bool,
    event: L1Event<H, T>,
)
    ensures
        ({
            let once = close_step(events, closed);
            &&& close_step(once.0, once.1) == once
            &&& push_step(once.0, once.1, event).0 == once.0
        }),
{
}

} // verus!
