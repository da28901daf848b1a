//! Driving every selected node's run with at most a bounded number in
//! flight, and folding their outcomes into one result.
use vstd::prelude::*;
use crate::error::HiveLibError;

verus! {

/// The state of a fleet-wide apply: runs `0..total` start in order, at most
/// `bound` of them in flight at once.
#[derive(Debug)]
pub struct Scheduler {
    pub total: usize,
    pub bound: usize,
    pub started: usize,
    pub finished: usize,
    pub failures: usize,
    pub first_error: Option<HiveLibError>,
}

impl Scheduler {
    /// The number of runs started and not yet finished.
    pub open spec fn in_flight(&self) -> int {
        self.started - self.finished
    }

    /// The counts are consistent, the bound is kept, and an error is held
    /// exactly when a run has failed.
    pub open spec fn wf(&self) -> bool {
        &&& self.bound > 0
        &&& self.finished <= self.started <= self.total
        &&& self.in_flight() <= self.bound
        &&& self.failures <= self.finished
        &&& (self.first_error is Some <==> self.failures > 0)
    }

    /// A scheduler for `total` runs, at most `bound` at once.
    pub fn new(total: usize, bound: usize) -> (r: Scheduler)
        requires
            bound > 0,
        ensures
            r.wf(),
            r.total == total,
            r.bound == bound,
            r.started == 0,
            r.finished == 0,
            r.failures == 0,
    {
        Scheduler { total, bound, started: 0, finished: 0, failures: 0, first_error: None }
    }

    /// Starts the next run when one is left and the bound allows it, and
    /// returns its index. Whether a run starts does not depend on how
    /// earlier runs ended.
    pub fn start(&mut self) -> (r: Option<usize>)
        requires
            old(self).wf(),
        ensures
            final(self).wf(),
            r is Some <==> (old(self).started < old(self).total && old(self).in_flight() < old(self).bound),
            r is Some ==> r == Some(old(self).started) && final(self).started == old(self).started + 1,
            r is None ==> final(self).started == old(self).started,
            final(self).total == old(self).total,
            final(self).bound == old(self).bound,
            final(self).finished == old(self).finished,
            final(self).failures == old(self).failures,
            final(self).first_error == old(self).first_error,
    {
        if self.started < self.total && self.started - self.finished < self.bound {
            let i = self.started;
            self.started = self.started + 1;
            Some(i)
        } else {
            None
        }
    }

    /// Records the outcome of a run in flight. The first failure observed
    /// is kept; later ones are only counted.
    pub fn finish(&mut self, result: Result<(), HiveLibError>)
        requires
            old(self).wf(),
            old(self).in_flight() > 0,
        ensures
            final(self).wf(),
            final(self).finished == old(self).finished + 1,
            final(self).started == old(self).started,
            final(self).total == old(self).total,
            final(self).bound == old(self).bound,
            final(self).failures == old(self).failures + if result is Err { 1int } else { 0int },
            old(self).first_error is Some ==> final(self).first_error == old(self).first_error,
            old(self).first_error is None ==> final(self).first_error == match result {
                Ok(_) => None,
                Err(e) => Some(e),
            },
    {
        self.finished = self.finished + 1;
        match result {
            Ok(()) => {},
            Err(e) => {
                self.failures = self.failures + 1;
                if self.first_error.is_none() {
                    self.first_error = Some(e);
                }
            },
        }
    }

    /// Whether every run has finished.
    pub fn is_done(&self) -> (r: bool)
        ensures
            r == (self.finished == self.total),
    {
        self.finished == self.total
    }

    /// The result of the whole apply: a failure when any run failed,
    /// carrying the first failure observed.
    pub fn outcome(self) -> (r: Result<(), HiveLibError>)
        requires
            self.wf(),
        ensures
            r is Err <==> self.failures > 0,
            r is Err ==> self.first_error == Some(r->Err_0),
    {
        match self.first_error {
            None => Ok(()),
            Some(e) => Err(e),
        }
    }
}

/// However runs start and finish, no more than the bound are ever in flight.
pub proof fn lemma_in_flight_within_bound(s: Scheduler)
    requires
        s.wf(),
    ensures
        0 <= s.in_flight() <= s.bound,
{
}

/// Once every run has finished, every run was started: a failure never keeps
/// another node's run from being attempted, and none is left in flight.
pub proof fn lemma_done_means_all_attempted(s: Scheduler)
    requires
        s.wf(),
        s.finished == s.total,
    ensures
        s.started == s.total,
        s.in_flight() == 0,
{
}

/// An apply that is not done can always move on: either a run can start, or
/// one is in flight and can finish.
pub proof fn lemma_apply_progresses(s: Scheduler)
    requires
        s.wf(),
        s.finished < s.total,
    ensures
        (s.started < s.total && s.in_flight() < s.bound) || s.in_flight() > 0,
{
}

} // verus!
