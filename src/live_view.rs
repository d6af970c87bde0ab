//! The live view's state: every event taken from the hand-off queue, in
//! arrival order, kept for redrawing.

use vstd::prelude::*;
use crate::channel::HandOff;
use crate::event::ProcessEvent;
use crate::render::{record_lines, shown, views, Layout};

verus! {

pub struct LiveView {
    records: Vec<ProcessEvent>,
}

impl LiveView {
    /// The events shown, in arrival order.
    pub closed spec fn shown_events(&self) -> Seq<ProcessEvent> {
        self.records@
    }

    pub open spec fn wf(&self) -> bool {
        forall|i: int| 0 <= i < self.shown_events().len() ==> #[trigger] self.shown_events()[i].wf()
    }

    /// A view with nothing to show.
    pub fn new() -> (r: LiveView)
        ensures
            r.shown_events() == Seq::<ProcessEvent>::empty(),
            r.wf(),
    {
        LiveView { records: Vec::new() }
    }

    /// One redraw tick: takes every waiting event without waiting and
    /// appends it, in order, after those already shown. Returns how many
    /// came.
    pub fn refresh(&mut self, channel: &mut HandOff) -> (added: usize)
        requires
            old(self).wf(),
            old(channel).wf(),
        ensures
            final(self).shown_events() == old(self).shown_events() + old(channel).pending(),
            added == old(channel).pending().len(),
            final(channel).pending() == Seq::<ProcessEvent>::empty(),
            final(channel).is_shut() == old(channel).is_shut(),
            final(self).wf(),
            final(channel).wf(),
    {
        let mut batch = channel.drain_all();
        let added = batch.len();
        let ghost before = self.records@;
        let ghost got = batch@;
        self.records.append(&mut batch);
        assert forall|i: int| 0 <= i < self.records@.len() implies #[trigger] self.records@[i].wf() by {
            if i >= before.len() {
                assert(self.records@[i] == got[i - before.len()]);
                assert(old(channel).pending()[i - before.len()].wf());
            } else {
                assert(old(self).shown_events()[i].wf());
            }
        }
        added
    }

    /// The number of events shown.
    pub fn len(&self) -> (r: usize)
        ensures
            r == self.shown_events().len(),
    {
        self.records.len()
    }

    /// The `i`-th event shown, oldest first.
    pub fn event(&self, i: usize) -> (r: &ProcessEvent)
        requires
            i < self.shown_events().len(),
        ensures
            *r == self.shown_events()[i as int],
    {
        &self.records[i]
    }

    /// The labels of the `i`-th event shown.
    pub fn labels(&self, i: usize) -> (r: Vec<String>)
        requires
            self.wf(),
            i < self.shown_events().len(),
        ensures
            views(r@) == shown(Layout::LiveView, self.shown_events()[i as int]),
    {
        record_lines(Layout::LiveView, &self.records[i])
    }
}

} // verus!
