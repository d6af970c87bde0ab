//! The hand-off queue between the subscription side and a sink: first in,
//! first out, unbounded, with a close signal from the consumer back to the
//! producer.

use vstd::prelude::*;
use std::collections::VecDeque;
use crate::event::ProcessEvent;

verus! {

/// A push found the consumer gone.
#[derive(Clone, Copy, Debug, PartialEq, Eq)]
pub struct ChannelClosed;

/// Events pushed and not yet taken, oldest first, and whether the consumer
/// has closed its end.
pub struct HandOff {
    queue: VecDeque<ProcessEvent>,
    closed: bool,
}

impl HandOff {
    /// The events waiting for the consumer, oldest first.
    pub closed spec fn pending(&self) -> Seq<ProcessEvent> {
        self.queue@
    }

    /// The consumer has closed its end.
    pub closed spec fn is_shut(&self) -> bool {
        self.closed
    }

    /// Every waiting event is well formed.
    pub open spec fn wf(&self) -> bool {
        forall|i: int| 0 <= i < self.pending().len() ==> #[trigger] self.pending()[i].wf()
    }

    /// An open, empty queue.
    pub fn new() -> (r: HandOff)
        ensures
            r.pending() == Seq::<ProcessEvent>::empty(),
            !r.is_shut(),
            r.wf(),
    {
        HandOff { queue: VecDeque::new(), closed: false }
    }

    /// Appends `e` unless the consumer has closed its end; never waits.
    pub fn push(&mut self, e: ProcessEvent) -> (r: Result<(), ChannelClosed>)
        requires
            old(self).wf(),
            e.wf(),
        ensures
            final(self).wf(),
            old(self).is_shut() ==> r is Err && final(self).pending() == old(self).pending(),
            !old(self).is_shut() ==> r is Ok && final(self).pending() == old(self).pending().push(e),
            final(self).is_shut() == old(self).is_shut(),
    {
        if self.closed {
            Err(ChannelClosed)
        } else {
            self.queue.push_back(e);
            assert forall|i: int| 0 <= i < self.pending().len() implies #[trigger] self.pending()[i].wf() by {
                if i < old(self).pending().len() {
                    assert(old(self).pending()[i].wf());
                }
            }
            Ok(())
        }
    }

    /// Removes and returns every waiting event, oldest first; never waits.
    pub fn drain_all(&mut self) -> (r: Vec<ProcessEvent>)
        ensures
            final(self).wf(),
            r@ == old(self).pending(),
            final(self).pending() == Seq::<ProcessEvent>::empty(),
            final(self).is_shut() == old(self).is_shut(),
    {
        let mut out: Vec<ProcessEvent> = Vec::new();
        let ghost start = self.queue@;
        loop
            invariant
                out@ + self.queue@ == start,
                self.closed == old(self).closed,
                start == old(self).queue@,
            ensures
                out@ == start,
                self.queue@.len() == 0,
                self.closed == old(self).closed,
            decreases self.queue@.len(),
        {
            match self.queue.pop_front() {
                Some(e) => {
                    out.push(e);
                    assert(out@ + self.queue@ =~= start);
                },
                None => {
                    assert(out@ =~= start);
                    break ;
                },
            }
        }
        out
    }

    /// Removes and returns the oldest waiting event, if any; never waits.
    pub fn take_next(&mut self) -> (r: Option<ProcessEvent>)
        requires
            old(self).wf(),
        ensures
            final(self).wf(),
            r matches Some(e) ==> e.wf(),
            old(self).pending().len() == 0 ==> r is None && final(self).pending() == old(
                self,
            ).pending(),
            old(self).pending().len() > 0 ==> r == Some(old(self).pending()[0])
                && final(self).pending() == old(self).pending().drop_first(),
            final(self).is_shut() == old(self).is_shut(),
    {
        self.queue.pop_front()
    }

    /// Closes the consumer's end: every later push fails.
    pub fn close(&mut self)
        requires
            old(self).wf(),
        ensures
            final(self).wf(),
            final(self).is_shut(),
            final(self).pending() == old(self).pending(),
    {
        self.closed = true;
        assert forall|i: int| 0 <= i < self.pending().len() implies #[trigger] self.pending()[i].wf() by {
            assert(old(self).pending()[i].wf());
        }
    }

    pub fn is_closed(&self) -> (r: bool)
        ensures
            r == self.is_shut(),
    {
        self.closed
    }

    /// The number of waiting events.
    pub fn len(&self) -> (r: usize)
        ensures
            r == self.pending().len(),
    {
        self.queue.len()
    }
}

/// The events pushed by a run of operations, in order. Each operation is a
/// push of an event (`Some`) or a drain of everything waiting (`None`).
pub open spec fn pushed(ops: Seq<Option<ProcessEvent>>) -> Seq<ProcessEvent>
    decreases ops.len(),
{
    if ops.len() == 0 {
        Seq::empty()
    } else {
        let rest = pushed(ops.drop_last());
        match ops.last() {
            Some(e) => rest.push(e),
            None => rest,
        }
    }
}

/// What an open queue holds, and what its drains have handed out in all,
/// after a run of operations from empty: a push appends to what waits; a
/// drain hands out what waits and leaves it empty.
pub open spec fn replay(ops: Seq<Option<ProcessEvent>>) -> (Seq<ProcessEvent>, Seq<ProcessEvent>)
    decreases ops.len(),
{
    if ops.len() == 0 {
        (Seq::empty(), Seq::empty())
    } else {
        let (waiting, received) = replay(ops.drop_last());
        match ops.last() {
            Some(e) => (waiting.push(e), received),
            None => (Seq::empty(), received + waiting),
        }
    }
}

/// Nothing is lost, duplicated or reordered: whatever drains happen along
/// the way, what has been handed out followed by what still waits is exactly
/// what was pushed, in push order.
pub proof fn lemma_drains_keep_order(ops: Seq<Option<ProcessEvent>>)
    ensures
        replay(ops).1 + replay(ops).0 == pushed(ops),
    decreases ops.len(),
{
    if ops.len() > 0 {
        lemma_drains_keep_order(ops.drop_last());
        let (waiting, received) = replay(ops.drop_last());
        match ops.last() {
            Some(e) => {
                assert(received + waiting.push(e) =~= (received + waiting).push(e));
            },
            None => {
                assert(received + waiting + Seq::<ProcessEvent>::empty() =~= received + waiting);
            },
        }
    }
}

/// A final drain hands the consumer every pushed event, in push order, over
/// however many drains it took.
pub proof fn lemma_final_drain_receives_all(ops: Seq<Option<ProcessEvent>>)
    ensures
        replay(ops.push(None)).1 == pushed(ops),
        replay(ops.push(None)).0.len() == 0,
{
    lemma_drains_keep_order(ops);
    assert(ops.push(None).drop_last() =~= ops);
}

} // verus!
