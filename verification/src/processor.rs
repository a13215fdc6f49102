//! Deployment jobs and the action executor's control flow.
//!
//! A [`Message`] is the job a successful sync hands to a worker. The worker
//! drives an [`Executor`]: it asks for the next action, performs it (an
//! outside effect: spawning a process or copying a file), and records the
//! outcome. The executor performs the actions strictly in declared order
//! and halts at the first failure; the job as a whole succeeds exactly when
//! every declared action ran and succeeded.

use vstd::prelude::*;
use crate::manifest::Action;

verus! {

/// The message sent from the webhook handler to the deployment processor,
/// containing the necessary information to deploy the repository.
#[derive(Debug)]
pub struct Message {
    pub path: String,
    pub repository: String,
}

/// The executor's state over one job: the declared actions, how many have
/// completed successfully, whether a failure has halted the run, and the
/// (ghost) record of the outcomes seen so far.
pub struct Executor {
    pub actions: Vec<Action>,
    pub completed: usize,
    pub halted: bool,
    pub history: Ghost<Seq<bool>>,
}

impl Executor {
    /// The executor's invariant: the outcomes recorded so far are the
    /// successes counted by `completed`, followed by one failure exactly
    /// when the run has halted.
    pub open spec fn wf(self) -> bool {
        &&& self.completed <= self.actions@.len()
        &&& self.halted ==> self.completed < self.actions@.len()
        &&& self.history@.len() == self.completed + (if self.halted {
            1int
        } else {
            0int
        })
        &&& forall|i: int| 0 <= i < self.completed ==> self.history@[i]
        &&& self.halted ==> !self.history@.last()
    }

    /// Whether another action is still due to run.
    pub open spec fn in_progress(self) -> bool {
        !self.halted && self.completed < self.actions@.len()
    }

    /// A fresh executor over the declared actions: nothing run yet.
    pub fn new(actions: Vec<Action>) -> (e: Executor)
        ensures
            e.wf(),
            e.actions@ == actions@,
            e.completed == 0,
            !e.halted,
            e.history@ == Seq::<bool>::empty(),
    {
        Executor { actions, completed: 0, halted: false, history: Ghost(Seq::empty()) }
    }

    /// The next action to perform: the first one not yet run, in declared
    /// order; `None` once every action ran or a failure halted the run.
    pub fn next_action(&self) -> (r: Option<&Action>)
        requires
            self.wf(),
        ensures
            match r {
                Some(a) => self.in_progress() && *a == self.actions@[self.completed as int],
                None => !self.in_progress(),
            },
    {
        if !self.halted && self.completed < self.actions.len() {
            Some(&self.actions[self.completed])
        } else {
            None
        }
    }

    /// Records the outcome of the action last handed out: a success counts
    /// it as completed, a failure halts the run, so that no later action is
    /// ever handed out.
    pub fn record(&mut self, ok: bool)
        requires
            old(self).wf(),
            old(self).in_progress(),
        ensures
            final(self).wf(),
            final(self).actions@ == old(self).actions@,
            final(self).history@ == old(self).history@.push(ok),
            ok ==> final(self).completed == old(self).completed + 1 && !final(self).halted,
            !ok ==> final(self).completed == old(self).completed && final(self).halted,
    {
        proof {
            self.history@ = self.history@.push(ok);
        }
        if ok {
            proof {
                broadcast use vstd::std_specs::vec::axiom_spec_len;

                assert(vstd::std_specs::vec::spec_vec_len(&self.actions) == self.actions@.len());
            }
            self.completed = self.completed + 1;
        } else {
            self.halted = true;
        }
    }

    /// The job's report: success exactly when every declared action
    /// completed, alongside the count of completed actions.
    pub fn report(&self) -> (r: (bool, usize))
        requires
            self.wf(),
        ensures
            r.0 == (self.completed == self.actions@.len()),
            r.1 == self.completed,
    {
        (self.completed == self.actions.len(), self.completed)
    }
}

/// Abort on first failure: however the actions turn out, the recorded
/// outcomes are successes only — one per completed action — followed by a
/// single failure exactly when the run halted; after a failure no further
/// outcome is ever recorded, and a halted run never reports success.
pub proof fn lemma_abort_on_first_failure(e: Executor)
    requires
        e.wf(),
    ensures
        !e.halted ==> e.history@ =~= Seq::new(e.completed as nat, |i: int| true),
        e.halted ==> e.history@ =~= Seq::new(e.completed as nat, |i: int| true).push(false),
        e.halted ==> !e.in_progress() && e.completed < e.actions@.len(),
{
}

} // verus!
