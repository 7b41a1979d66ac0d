//! Keeping track of a plan while it is carried out.
//!
//! A plan is carried out step by step, in order, each step once.  A step
//! that fails is counted and the next step is taken all the same: a plan is
//! a best effort, not a transaction.

use vstd::prelude::*;
use crate::planner::{steps, Operation, OperationView};

verus! {

/// A run as plain values.
pub struct RunView {
    /// The steps of the plan.
    pub plan: Seq<OperationView>,
    /// How many steps have been settled.
    pub settled: nat,
    /// How many of them failed.
    pub failed: nat,
}

/// A plan and how far it has been carried out.
pub struct Run {
    ops: Vec<Operation>,
    settled: usize,
    failed: usize,
}

impl View for Run {
    type V = RunView;

    closed spec fn view(&self) -> RunView {
        RunView {
            plan: steps(self.ops@),
            settled: self.settled as nat,
            failed: self.failed as nat,
        }
    }
}

impl RunView {
    /// The step that is due, where one is left.
    pub open spec fn due(self) -> Option<OperationView> {
        if self.settled < self.plan.len() {
            Some(self.plan[self.settled as int])
        } else {
            None
        }
    }

    /// The run after the step that was due has been tried.  The run moves
    /// on whether the step succeeded or not; with no step due, nothing
    /// changes.
    pub open spec fn after(self, succeeded: bool) -> RunView {
        if self.settled < self.plan.len() {
            RunView {
                plan: self.plan,
                settled: self.settled + 1,
                failed: if succeeded {
                    self.failed
                } else {
                    self.failed + 1
                },
            }
        } else {
            self
        }
    }
}

impl Run {
    #[verifier::type_invariant]
    spec fn in_bounds(self) -> bool {
        self.failed <= self.settled <= self.ops.len()
    }

    /// A run of the plan of which no step has been taken yet.
    pub fn new(ops: Vec<Operation>) -> (run: Self)
        ensures
            run@ == (RunView { plan: steps(ops@), settled: 0, failed: 0 }),
    {
        Run { ops, settled: 0, failed: 0 }
    }

    /// The step to carry out now; none once every step has been settled.
    pub fn next(&self) -> (op: Option<&Operation>)
        ensures
            match op {
                Some(step) => self@.due() == Some(step@),
                None => self@.due() is None,
            },
            self@.failed <= self@.settled <= self@.plan.len(),
    {
        proof {
            use_type_invariant(self);
        }
        if self.settled < self.ops.len() {
            Some(&self.ops[self.settled])
        } else {
            None
        }
    }

    /// Takes note of how the step that was due went.
    pub fn settle(&mut self, succeeded: bool)
        ensures
            final(self)@ == old(self)@.after(succeeded),
    {
        proof {
            use_type_invariant(&*self);
        }
        if self.settled < self.ops.len() {
            self.settled = self.settled + 1;
            if !succeeded {
                self.failed = self.failed + 1;
            }
        }
    }

    /// Whether every step has been settled.
    pub fn is_finished(&self) -> (finished: bool)
        ensures
            finished == (self@.due() is None),
    {
        proof {
            use_type_invariant(self);
        }
        self.settled >= self.ops.len()
    }

    /// How many steps failed so far.
    pub fn failures(&self) -> (n: usize)
        ensures
            n == self@.failed,
    {
        self.failed
    }
}

/// Whether a step fails or succeeds makes no difference to which step is
/// due next, nor to the plan.
pub proof fn failure_does_not_stop_the_run(run: RunView)
    ensures
        run.after(false).due() == run.after(true).due(),
        run.after(false).plan == run.plan,
        run.after(false).settled == run.after(true).settled,
{
}

} // verus!
