use vstd::prelude::*;
use crate::exchange::Step;
use crate::packet::{AuxError, Packet};

verus! {

/// A sequence of steps carried out in order, one at a time, that stops at
/// the first step that fails: steps after it are never started, and nothing
/// is undone.
///
/// The caller asks `next_step`, performs it (trigger or send, then an
/// `Exchange`), and hands the outcome to `record`, until `next_step` gives
/// `None`; `result` then tells how it ended.
pub struct Plan {
    steps: Vec<Step>,
    done: usize,
    failure: Option<AuxError>,
}

/// What one step's outcome leaves of a plan: how many steps are done, and
/// the failure, if any.
pub open spec fn step_outcome(step: Step, outcome: Result<Packet, AuxError>) -> Option<AuxError> {
    match outcome {
        Ok(p) => if step.spec_accepts(p) {
            None
        } else {
            Some(AuxError::UnexpectedReply)
        },
        Err(e) => Some(e),
    }
}

impl Plan {
    /// The steps, in order.
    pub closed spec fn steps(&self) -> Seq<Step> {
        self.steps@
    }

    /// How many steps have succeeded so far.
    pub closed spec fn done(&self) -> nat {
        self.done as nat
    }

    /// The failure of the step after the last done one, if it failed.
    pub closed spec fn failure(&self) -> Option<AuxError> {
        self.failure
    }

    pub open spec fn wf(&self) -> bool {
        &&& self.done() <= self.steps().len()
        &&& self.failure() is Some ==> self.done() < self.steps().len()
    }

    /// No step is left to perform.
    pub open spec fn finished(&self) -> bool {
        self.failure() is Some || self.done() == self.steps().len()
    }

    /// Every step succeeded.
    pub open spec fn succeeded(&self) -> bool {
        self.failure() is None && self.done() == self.steps().len()
    }

    /// How the plan ended, once finished.
    pub open spec fn spec_result(&self) -> Result<(), AuxError> {
        match self.failure() {
            Some(e) => Err(e),
            None => Ok(()),
        }
    }

    /// How many steps were started: those done and the one that failed.
    pub open spec fn started(&self) -> nat {
        if self.failure() is Some {
            self.done() + 1
        } else {
            self.done()
        }
    }

    /// A plan of `steps` of which none has been started.
    pub open spec fn fresh(&self, steps: Seq<Step>) -> bool {
        &&& self.steps() == steps
        &&& self.done() == 0
        &&& self.failure() is None
    }

    pub fn new(steps: Vec<Step>) -> (r: Plan)
        ensures
            r.wf(),
            r.fresh(steps@),
    {
        Plan { steps, done: 0, failure: None }
    }

    /// The step to perform now, or `None` once the plan is finished.
    pub fn next_step(&self) -> (r: Option<Step>)
        requires
            self.wf(),
        ensures
            self.finished() ==> r is None,
            !self.finished() ==> r == Some(self.steps()[self.done() as int]),
    {
        if self.failure.is_some() || self.done >= self.steps.len() {
            None
        } else {
            Some(self.steps[self.done])
        }
    }

    /// Records how the current step ended: with the packet that the wait
    /// returned, or with the error that ended the wait.
    pub fn record(&mut self, outcome: Result<Packet, AuxError>)
        requires
            old(self).wf(),
            !old(self).finished(),
        ensures
            final(self).wf(),
            final(self).steps() == old(self).steps(),
            final(self).started() == old(self).started() + 1,
            ({
                let f = step_outcome(old(self).steps()[old(self).done() as int], outcome);
                &&& final(self).failure() == f
                &&& final(self).done() == if f is None {
                    old(self).done() + 1
                } else {
                    old(self).done()
                }
            }),
    {
        let n = self.steps.len();
        assert(self.done < n);
        let step = self.steps[self.done];
        match outcome {
            Ok(p) => {
                if step.accepts(&p) {
                    self.done = self.done + 1;
                } else {
                    self.failure = Some(AuxError::UnexpectedReply);
                }
            },
            Err(e) => {
                self.failure = Some(e);
            },
        }
    }

    /// How a finished plan ended: `Ok` when every step succeeded, else the
    /// failure of the step that stopped it.
    pub fn result(&self) -> (r: Result<(), AuxError>)
        requires
            self.wf(),
            self.finished(),
        ensures
            r == self.spec_result(),
            r is Ok <==> self.succeeded(),
    {
        match self.failure {
            Some(e) => Err(e),
            None => Ok(()),
        }
    }
}

/// A plan never starts more steps than it holds, and once a step has failed
/// no further step is handed out.
pub proof fn lemma_plan_stops_at_failure(p: Plan)
    requires
        p.wf(),
    ensures
        p.started() <= p.steps().len(),
        p.failure() is Some ==> p.finished() && !p.succeeded(),
{
}

} // verus!
