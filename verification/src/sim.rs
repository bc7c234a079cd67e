//! The decisions of the simulated node agent: which actions it was asked to
//! perform, in order; which of them it fails on purpose; and the cluster tip
//! it reports after a catch-up. It performs no real work, so the saga's
//! compensation path can be exercised end to end; the short simulated delay
//! before each action is left to the caller.

use vstd::prelude::*;

use vstd::string::StringExecFns;
use crate::core_error::PortError;
use crate::ids::Slot;
use crate::ops::{action_text, OpsActionKind};

verus! {

/// The tip slot a fresh simulator starts from.
pub const SIM_INITIAL_TIP: u64 = 1_000;

/// What the simulator remembers: the actions performed so far, the actions it
/// fails on, and the next tip slot it will report.
pub struct SimNodeAgent {
    tip: u64,
    fail_on: Vec<OpsActionKind>,
    log: Vec<OpsActionKind>,
}

/// The abstract state of a simulator.
pub struct SimView {
    pub tip: u64,
    pub fail_on: Set<OpsActionKind>,
    pub log: Seq<OpsActionKind>,
}

impl View for SimNodeAgent {
    type V = SimView;

    closed spec fn view(&self) -> SimView {
        SimView { tip: self.tip, fail_on: self.fail_on@.to_set(), log: self.log@ }
    }
}

/// The message of an injected failure.
pub open spec fn simulated_failure_text(a: OpsActionKind) -> Seq<char> {
    "simulated failure on "@ + action_text(a)@
}

/// The tip after one catch-up: one more, wrapping as an atomic counter does.
pub open spec fn next_tip(tip: u64) -> u64 {
    if tip == u64::MAX {
        0
    } else {
        (tip + 1) as u64
    }
}

impl SimNodeAgent {
    /// A simulator that succeeds at every operation.
    pub fn new() -> (s: SimNodeAgent)
        ensures
            s@.tip == SIM_INITIAL_TIP,
            s@.fail_on.is_empty(),
            s@.log.len() == 0,
    {
        let s = SimNodeAgent { tip: SIM_INITIAL_TIP, fail_on: Vec::new(), log: Vec::new() };
        proof {
            assert(s.fail_on@.to_set() =~= Set::empty());
        }
        s
    }

    /// A simulator that fails, with a retryable error, on the given actions.
    pub fn failing_on(actions: Vec<OpsActionKind>) -> (s: SimNodeAgent)
        ensures
            s@.tip == SIM_INITIAL_TIP,
            s@.fail_on == actions@.to_set(),
            s@.log.len() == 0,
    {
        SimNodeAgent { tip: SIM_INITIAL_TIP, fail_on: actions, log: Vec::new() }
    }

    /// The recorded sequence of actions performed.
    pub fn calls(&self) -> (r: Vec<OpsActionKind>)
        ensures
            r@ == self@.log,
    {
        let mut r: Vec<OpsActionKind> = Vec::new();
        let mut i: usize = 0;
        while i < self.log.len()
            invariant
                i <= self.log@.len(),
                r@ == self.log@.subrange(0, i as int),
            decreases self.log@.len() - i,
        {
            r.push(self.log[i]);
            i = i + 1;
            proof {
                assert(r@ =~= self.log@.subrange(0, i as int));
            }
        }
        proof {
            assert(self.log@.subrange(0, self.log@.len() as int) =~= self.log@);
        }
        r
    }

    fn fails_on(&self, action: OpsActionKind) -> (b: bool)
        ensures
            b == self@.fail_on.contains(action),
    {
        let mut i: usize = 0;
        while i < self.fail_on.len()
            invariant
                i <= self.fail_on@.len(),
                forall|j: int| 0 <= j < i ==> self.fail_on@[j] != action,
            decreases self.fail_on@.len() - i,
        {
            if self.fail_on[i] == action {
                proof {
                    assert(self.fail_on@.to_set().contains(self.fail_on@[i as int]));
                }
                return true;
            }
            i = i + 1;
        }
        proof {
            if self.fail_on@.to_set().contains(action) {
                let j = choose|j: int| 0 <= j < self.fail_on@.len() && self.fail_on@[j] == action;
                assert(self.fail_on@[j] == action);
            }
        }
        false
    }

    /// Perform `action`: record it, then fail if it is one of the injected
    /// failures.
    pub fn perform(&mut self, action: OpsActionKind) -> (r: Result<(), PortError>)
        ensures
            final(self)@.log == old(self)@.log.push(action),
            final(self)@.fail_on == old(self)@.fail_on,
            final(self)@.tip == old(self)@.tip,
            r is Ok <==> !old(self)@.fail_on.contains(action),
            r is Err ==> (r->Err_0 matches PortError::Unavailable(m)
                && m@ == simulated_failure_text(action)),
    {
        self.log.push(action);
        if self.fails_on(action) {
            let mut msg = String::from_str("simulated failure on ");
            msg.append(action.as_str());
            Err(PortError::Unavailable(msg))
        } else {
            Ok(())
        }
    }

    /// Perform a catch-up: record it like any action and, when it succeeds,
    /// report the current tip and advance it by one.
    pub fn await_catchup(&mut self) -> (r: Result<Slot, PortError>)
        ensures
            final(self)@.log == old(self)@.log.push(OpsActionKind::AwaitCatchup),
            final(self)@.fail_on == old(self)@.fail_on,
            r is Ok <==> !old(self)@.fail_on.contains(OpsActionKind::AwaitCatchup),
            r is Ok ==> (r->Ok_0).0 == old(self)@.tip && final(self)@.tip == next_tip(old(self)@.tip),
            r is Err ==> final(self)@.tip == old(self)@.tip && (r->Err_0 matches PortError::Unavailable(m)
                && m@ == simulated_failure_text(OpsActionKind::AwaitCatchup)),
    {
        let res = self.perform(OpsActionKind::AwaitCatchup);
        match res {
            Err(e) => Err(e),
            Ok(()) => {
                let slot = self.tip;
                self.tip = self.tip.wrapping_add(1);
                Ok(Slot(slot))
            },
        }
    }
}

impl Default for SimNodeAgent {
    fn default() -> (s: SimNodeAgent)
        ensures
            s@.tip == SIM_INITIAL_TIP,
            s@.fail_on.is_empty(),
            s@.log.len() == 0,
    {
        SimNodeAgent::new()
    }
}

/// Successive catch-ups of a simulator that does not fail them report
/// strictly increasing slots, until the counter wraps.
pub proof fn lemma_catchup_increases(tip: u64)
    requires
        tip < u64::MAX,
    ensures
        next_tip(tip) > tip,
{
}

} // verus!
