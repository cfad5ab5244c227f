//! The decisions of a batch run: when to start another symbol, when to wait
//! for one to finish, and what to count when a verdict comes in. The caller
//! performs each action and reports each verdict.
use vstd::prelude::*;

use crate::evaluate::Verdict;

verus! {

/// The counters of a batch run over `total` symbols with at most `limit` in
/// flight at once.
pub struct Batch {
    pub total: usize,
    pub limit: usize,
    pub dispatched: usize,
    pub completed: usize,
    pub accepted: usize,
    pub rejected: usize,
    pub failed: usize,
}

/// What the runner should do next.
#[derive(PartialEq, Eq, Structural, Debug)]
pub enum Action {
    /// Start the pipeline on the next symbol.
    Dispatch,
    /// Wait for a pipeline in flight to finish, and report its verdict.
    Await,
    /// Every symbol has its verdict.
    Finish,
}

impl Batch {
    pub open spec fn wf(&self) -> bool {
        &&& self.limit > 0
        &&& self.dispatched <= self.total
        &&& self.completed <= self.dispatched
        &&& self.dispatched - self.completed <= self.limit
        &&& self.completed == self.accepted + self.rejected + self.failed
    }

    pub open spec fn in_flight_of(&self) -> int {
        self.dispatched - self.completed
    }

    pub open spec fn next_of(&self) -> Action {
        if self.dispatched < self.total && self.in_flight_of() < self.limit {
            Action::Dispatch
        } else if self.in_flight_of() > 0 {
            Action::Await
        } else {
            Action::Finish
        }
    }

    /// The counters once a verdict `v` has come in.
    pub open spec fn counted(self, v: Verdict) -> Batch {
        Batch {
            completed: (self.completed + 1) as usize,
            accepted: (self.accepted + if v is Accepted { 1int } else { 0 }) as usize,
            rejected: (self.rejected + if v is Rejected { 1int } else { 0 }) as usize,
            failed: (self.failed + if v is Failed { 1int } else { 0 }) as usize,
            ..self
        }
    }

    /// The counters once the verdicts `vs` have come in, in order.
    pub open spec fn counted_all(self, vs: Seq<Verdict>) -> Batch
        decreases vs.len(),
    {
        if vs.len() == 0 {
            self
        } else {
            self.counted_all(vs.drop_last()).counted(vs.last())
        }
    }

    /// A fresh run; `None` when `limit` is zero, since nothing could ever start.
    pub fn new(total: usize, limit: usize) -> (r: Option<Batch>)
        ensures
            limit == 0 <==> r is None,
            r matches Some(b) ==> {
                &&& b.wf()
                &&& b.total == total
                &&& b.limit == limit
                &&& b.dispatched == 0
                &&& b.completed == 0
                &&& b.accepted == 0
                &&& b.rejected == 0
                &&& b.failed == 0
            },
    {
        if limit == 0 {
            None
        } else {
            Some(Batch { total, limit, dispatched: 0, completed: 0, accepted: 0, rejected: 0, failed: 0 })
        }
    }

    /// The number of pipelines started and not yet reported.
    pub fn in_flight(&self) -> (r: usize)
        requires
            self.wf(),
        ensures
            r == self.in_flight_of(),
    {
        self.dispatched - self.completed
    }

    /// Start another symbol while one is left and a slot is free; else wait
    /// while one is in flight; else finish.
    pub fn next_action(&self) -> (r: Action)
        requires
            self.wf(),
        ensures
            r == self.next_of(),
    {
        let in_flight = self.dispatched - self.completed;
        if self.dispatched < self.total && in_flight < self.limit {
            Action::Dispatch
        } else if in_flight > 0 {
            Action::Await
        } else {
            Action::Finish
        }
    }

    /// Counts the start of the next symbol's pipeline.
    pub fn dispatch(&mut self)
        requires
            old(self).wf(),
            old(self).next_of() == Action::Dispatch,
        ensures
            final(self).wf(),
            final(self).dispatched == old(self).dispatched + 1,
            final(self).total == old(self).total,
            final(self).limit == old(self).limit,
            final(self).completed == old(self).completed,
            final(self).accepted == old(self).accepted,
            final(self).rejected == old(self).rejected,
            final(self).failed == old(self).failed,
    {
        self.dispatched = self.dispatched + 1;
    }

    /// Counts a verdict that came in from a pipeline in flight. Returns whether
    /// the verdict's record goes to the output, which it does when accepted.
    pub fn record(&mut self, v: &Verdict) -> (r: bool)
        requires
            old(self).wf(),
            old(self).in_flight_of() > 0,
        ensures
            final(self).wf(),
            r == v is Accepted,
            *final(self) == old(self).counted(*v),
    {
        self.completed = self.completed + 1;
        match v {
            Verdict::Accepted(_) => {
                self.accepted = self.accepted + 1;
                true
            },
            Verdict::Rejected => {
                self.rejected = self.rejected + 1;
                false
            },
            Verdict::Failed(_) => {
                self.failed = self.failed + 1;
                false
            },
        }
    }

    /// The share of symbols with a verdict, in whole percent, rounded down;
    /// 100 for an empty run.
    pub fn percent_done(&self) -> (r: usize)
        requires
            self.wf(),
        ensures
            self.total == 0 ==> r == 100,
            self.total > 0 ==> r == self.completed * 100 / self.total as int,
            r <= 100,
    {
        if self.total == 0 {
            100
        } else {
            let done = self.completed as u128 * 100;
            let r = done / self.total as u128;
            assert(r <= 100) by (nonlinear_arith)
                requires
                    r as int == done as int / self.total as int,
                    done as int == self.completed * 100,
                    self.completed <= self.total,
                    self.total > 0,
            ;
            r as usize
        }
    }
}

/// No symbol is lost: a run that has finished has a verdict for every symbol,
/// each counted once as accepted, rejected or failed, and at every point the
/// count of verdicts never exceeds the count of symbols started.
pub proof fn finished_run_counts_every_symbol(b: Batch)
    requires
        b.wf(),
    ensures
        b.completed <= b.dispatched,
        b.accepted + b.rejected + b.failed == b.completed,
        b.next_of() == Action::Finish ==> b.completed == b.dispatched == b.total,
{
}

/// Each verdict is counted exactly once: from any state of a run, after
/// the verdicts `vs` of pipelines in flight have come in, the completed count
/// has grown by exactly their number, the number started is unchanged, and
/// the counts of accepted, rejected and failed still add up to it.
pub proof fn verdicts_are_counted_once(b: Batch, vs: Seq<Verdict>)
    requires
        b.wf(),
        vs.len() <= b.in_flight_of(),
    ensures
        b.counted_all(vs).wf(),
        b.counted_all(vs).completed == b.completed + vs.len(),
        b.counted_all(vs).dispatched == b.dispatched,
        b.counted_all(vs).total == b.total,
        b.counted_all(vs).limit == b.limit,
    decreases vs.len(),
{
    if vs.len() > 0 {
        verdicts_are_counted_once(b, vs.drop_last());
    }
}

/// The cap holds: in every state of a run no more than `limit` pipelines are
/// in flight, and a dispatch is only ever asked for with a slot free.
pub proof fn concurrency_cap_holds(b: Batch)
    requires
        b.wf(),
    ensures
        0 <= b.in_flight_of() <= b.limit,
        b.next_of() == Action::Dispatch ==> b.in_flight_of() + 1 <= b.limit,
{
}

/// A run makes progress: whichever action is asked for, performing it brings
/// the run closer to its end, measured by `2 * total - dispatched - completed`.
pub proof fn every_action_makes_progress(b: Batch)
    requires
        b.wf(),
    ensures
        b.next_of() == Action::Dispatch ==> b.dispatched < b.total,
        b.next_of() == Action::Await ==> b.completed < b.dispatched,
        b.next_of() == Action::Finish ==> b.dispatched == b.total && b.completed == b.total,
{
}

} // verus!
