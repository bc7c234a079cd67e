//! Compensating saga orchestration.
//!
//! A deployment is an ordered list of [`SagaStep`]s. The [`SagaExecutor`] runs
//! them forward; if a step fails it compensates the already-completed steps in
//! reverse order. The executor is a state machine: it names the next agent
//! effect to perform ([`SagaExecutor::next_command`]) and is told whether that
//! effect succeeded ([`SagaExecutor::record_outcome`]); the caller performs
//! the effect against the node agent.

use vstd::prelude::*;

use crate::core_error::PortError;
use crate::ids::{HostAddr, ValidatorVersion};
use crate::ops::{DeploymentKind, DeploymentRun, OpsActionKind, RunStatus, RunView};
use vstd::string::StringExecFns;

verus! {

/// Shared, read-only context of one saga run.
#[derive(Debug, PartialEq, Eq)]
pub struct SagaContext {
    /// The primary host the saga targets.
    pub host: HostAddr,
    /// The validator version relevant to the saga (current or target).
    pub version: ValidatorVersion,
    /// The hot-spare host, when the saga is a failover.
    pub spare_host: Option<HostAddr>,
}

impl Clone for SagaContext {
    fn clone(&self) -> (r: Self)
        ensures
            r == *self,
    {
        let spare_host = match &self.spare_host {
            Some(h) => Some(h.clone()),
            None => None,
        };
        SagaContext { host: self.host.clone(), version: self.version.clone(), spare_host }
    }
}

/// One call to perform against a node agent.
#[derive(Debug, PartialEq, Eq)]
pub enum AgentCall {
    /// Render and apply infrastructure on `host`.
    ApplyInfra { host: HostAddr },
    /// Apply OS performance tuning on `host`.
    TuneHost { host: HostAddr },
    /// Start the validator process at `version` on `host`.
    StartValidator { host: HostAddr, version: ValidatorVersion },
    /// Wait until `host` has caught up to the cluster tip.
    AwaitCatchup { host: HostAddr },
    /// Gracefully drain `host`.
    Drain { host: HostAddr },
    /// Move the staked identity from `from` onto `to`.
    SwapIdentity { from: HostAddr, to: HostAddr },
    /// Destroy the infrastructure of `host`.
    DestroyInfra { host: HostAddr },
}

pub open spec fn call_action(c: AgentCall) -> OpsActionKind {
    match c {
        AgentCall::ApplyInfra { .. } => OpsActionKind::ApplyInfra,
        AgentCall::TuneHost { .. } => OpsActionKind::TuneHost,
        AgentCall::StartValidator { .. } => OpsActionKind::StartValidator,
        AgentCall::AwaitCatchup { .. } => OpsActionKind::AwaitCatchup,
        AgentCall::Drain { .. } => OpsActionKind::Drain,
        AgentCall::SwapIdentity { .. } => OpsActionKind::SwapIdentity,
        AgentCall::DestroyInfra { .. } => OpsActionKind::DestroyInfra,
    }
}

impl AgentCall {
    /// The agent operation this call invokes.
    pub fn action(&self) -> (a: OpsActionKind)
        ensures
            a == call_action(*self),
    {
        match self {
            AgentCall::ApplyInfra { .. } => OpsActionKind::ApplyInfra,
            AgentCall::TuneHost { .. } => OpsActionKind::TuneHost,
            AgentCall::StartValidator { .. } => OpsActionKind::StartValidator,
            AgentCall::AwaitCatchup { .. } => OpsActionKind::AwaitCatchup,
            AgentCall::Drain { .. } => OpsActionKind::Drain,
            AgentCall::SwapIdentity { .. } => OpsActionKind::SwapIdentity,
            AgentCall::DestroyInfra { .. } => OpsActionKind::DestroyInfra,
        }
    }
}

/// What performing one saga step (or its compensation) amounts to.
#[derive(Debug, PartialEq, Eq)]
pub enum StepEffect {
    /// Perform this agent call; the step succeeds iff the call does.
    Call(AgentCall),
    /// Nothing to do; the step succeeds.
    Succeed,
    /// The step fails without calling the agent.
    Fail(PortError),
}

/// The forward effect of `action` in context `ctx`.
pub open spec fn is_execute_effect(action: OpsActionKind, ctx: SagaContext, e: StepEffect) -> bool {
    match action {
        OpsActionKind::ApplyInfra => e == StepEffect::Call(AgentCall::ApplyInfra { host: ctx.host }),
        OpsActionKind::TuneHost => e == StepEffect::Call(AgentCall::TuneHost { host: ctx.host }),
        OpsActionKind::StartValidator => e == StepEffect::Call(
            AgentCall::StartValidator { host: ctx.host, version: ctx.version },
        ),
        OpsActionKind::AwaitCatchup => e == StepEffect::Call(
            AgentCall::AwaitCatchup { host: ctx.host },
        ),
        OpsActionKind::Drain => e == StepEffect::Call(AgentCall::Drain { host: ctx.host }),
        OpsActionKind::SwapIdentity => match ctx.spare_host {
            Some(spare) => e == StepEffect::Call(
                AgentCall::SwapIdentity { from: ctx.host, to: spare },
            ),
            None => e matches StepEffect::Fail(PortError::Rejected(m)) && m@
                == "failover requires a spare host"@,
        },
        OpsActionKind::DestroyInfra => e == StepEffect::Call(
            AgentCall::DestroyInfra { host: ctx.host },
        ),
    }
}

/// The compensating effect of `action` in context `ctx`: infrastructure is
/// destroyed, a started validator is drained, a swapped identity is swapped
/// back; every other step needs no undo.
pub open spec fn compensate_effect(action: OpsActionKind, ctx: SagaContext) -> StepEffect {
    match action {
        OpsActionKind::ApplyInfra => StepEffect::Call(AgentCall::DestroyInfra { host: ctx.host }),
        OpsActionKind::StartValidator => StepEffect::Call(AgentCall::Drain { host: ctx.host }),
        OpsActionKind::SwapIdentity => match ctx.spare_host {
            Some(spare) => StepEffect::Call(AgentCall::SwapIdentity { from: spare, to: ctx.host }),
            None => StepEffect::Succeed,
        },
        _ => StepEffect::Succeed,
    }
}

/// The host an agent call acts on (for an identity swap, the host the
/// identity moves away from).
pub open spec fn call_host(c: AgentCall) -> HostAddr {
    match c {
        AgentCall::ApplyInfra { host } => host,
        AgentCall::TuneHost { host } => host,
        AgentCall::StartValidator { host, .. } => host,
        AgentCall::AwaitCatchup { host } => host,
        AgentCall::Drain { host } => host,
        AgentCall::SwapIdentity { from, .. } => from,
        AgentCall::DestroyInfra { host } => host,
    }
}

/// A step's forward effect is the agent call for that step's own action on
/// the context's host: a completed step means its call was made. The one
/// exception is an identity swap with no spare, which fails without calling
/// the agent. A swap moves the identity to the spare; a start runs the
/// context's version.
pub proof fn lemma_execute_calls_its_action(action: OpsActionKind, ctx: SagaContext, e: StepEffect)
    requires
        is_execute_effect(action, ctx, e),
    ensures
        action != OpsActionKind::SwapIdentity || ctx.spare_host is Some ==> (e matches StepEffect::Call(
            c,
        ) && call_action(c) == action && call_host(c) == ctx.host),
        action == OpsActionKind::SwapIdentity && ctx.spare_host is Some ==> (e matches StepEffect::Call(
            AgentCall::SwapIdentity { to, .. },
        ) && ctx.spare_host == Some(to)),
        action == OpsActionKind::SwapIdentity && ctx.spare_host is None ==> e is Fail,
        action == OpsActionKind::StartValidator ==> (e matches StepEffect::Call(
            AgentCall::StartValidator { version, .. },
        ) && version == ctx.version),
{
}

/// Compensation undoes what a step did on the context's host: applied
/// infrastructure is destroyed, a started validator is drained, a swapped
/// identity is swapped back (the reverse of the forward call); the steps
/// that change nothing lasting need no undo.
pub proof fn lemma_compensation_undoes(action: OpsActionKind, ctx: SagaContext, forward: StepEffect)
    requires
        is_execute_effect(action, ctx, forward),
    ensures
        action == OpsActionKind::ApplyInfra ==> (compensate_effect(action, ctx) matches StepEffect::Call(
            c,
        ) && call_action(c) == OpsActionKind::DestroyInfra && call_host(c) == ctx.host),
        action == OpsActionKind::StartValidator ==> (compensate_effect(action, ctx) matches StepEffect::Call(
            c,
        ) && call_action(c) == OpsActionKind::Drain && call_host(c) == ctx.host),
        forward matches StepEffect::Call(AgentCall::SwapIdentity { from, to }) ==> compensate_effect(
            action,
            ctx,
        ) == StepEffect::Call(AgentCall::SwapIdentity { from: to, to: from }),
        action == OpsActionKind::TuneHost || action == OpsActionKind::AwaitCatchup || action
            == OpsActionKind::Drain || action == OpsActionKind::DestroyInfra ==> compensate_effect(
            action,
            ctx,
        ) == StepEffect::Succeed,
{
}

/// One reversible unit of work in a saga.
#[derive(Debug, Clone, Copy, PartialEq, Eq, Structural)]
pub struct SagaStep {
    action: OpsActionKind,
}

impl SagaStep {
    pub closed spec fn spec_action(self) -> OpsActionKind {
        self.action
    }

    /// The step performing `action`.
    pub fn for_action(action: OpsActionKind) -> (s: SagaStep)
        ensures
            s.spec_action() == action,
    {
        SagaStep { action }
    }

    /// The action this step represents (for the audit trail / events).
    pub fn action(&self) -> (a: OpsActionKind)
        ensures
            a == self.spec_action(),
    {
        self.action
    }

    /// The forward effect of this step.
    pub fn execute(&self, ctx: &SagaContext) -> (e: StepEffect)
        ensures
            is_execute_effect(self.spec_action(), *ctx, e),
    {
        match self.action {
            OpsActionKind::ApplyInfra => StepEffect::Call(
                AgentCall::ApplyInfra { host: ctx.host.clone() },
            ),
            OpsActionKind::TuneHost => StepEffect::Call(
                AgentCall::TuneHost { host: ctx.host.clone() },
            ),
            OpsActionKind::StartValidator => StepEffect::Call(
                AgentCall::StartValidator { host: ctx.host.clone(), version: ctx.version.clone() },
            ),
            OpsActionKind::AwaitCatchup => StepEffect::Call(
                AgentCall::AwaitCatchup { host: ctx.host.clone() },
            ),
            OpsActionKind::Drain => StepEffect::Call(AgentCall::Drain { host: ctx.host.clone() }),
            OpsActionKind::SwapIdentity => match &ctx.spare_host {
                Some(spare) => StepEffect::Call(
                    AgentCall::SwapIdentity { from: ctx.host.clone(), to: spare.clone() },
                ),
                None => StepEffect::Fail(
                    PortError::Rejected(String::from_str("failover requires a spare host")),
                ),
            },
            OpsActionKind::DestroyInfra => StepEffect::Call(
                AgentCall::DestroyInfra { host: ctx.host.clone() },
            ),
        }
    }

    /// The effect that undoes this step.
    pub fn compensate(&self, ctx: &SagaContext) -> (e: StepEffect)
        ensures
            e == compensate_effect(self.spec_action(), *ctx),
    {
        match self.action {
            OpsActionKind::ApplyInfra => StepEffect::Call(
                AgentCall::DestroyInfra { host: ctx.host.clone() },
            ),
            OpsActionKind::StartValidator => StepEffect::Call(
                AgentCall::Drain { host: ctx.host.clone() },
            ),
            OpsActionKind::SwapIdentity => match &ctx.spare_host {
                Some(spare) => StepEffect::Call(
                    AgentCall::SwapIdentity { from: spare.clone(), to: ctx.host.clone() },
                ),
                None => StepEffect::Succeed,
            },
            _ => StepEffect::Succeed,
        }
    }
}

/// The ordered actions of the plan for a deployment kind.
pub open spec fn plan_actions(kind: DeploymentKind) -> Seq<OpsActionKind> {
    match kind {
        DeploymentKind::Provision => seq![
            OpsActionKind::ApplyInfra,
            OpsActionKind::TuneHost,
            OpsActionKind::StartValidator,
            OpsActionKind::AwaitCatchup,
        ],
        DeploymentKind::Upgrade { .. } => seq![
            OpsActionKind::Drain,
            OpsActionKind::StartValidator,
            OpsActionKind::AwaitCatchup,
        ],
        DeploymentKind::Failover { .. } => seq![OpsActionKind::Drain, OpsActionKind::SwapIdentity],
        DeploymentKind::Decommission => seq![OpsActionKind::Drain, OpsActionKind::DestroyInfra],
    }
}

/// The actions of a step list.
pub open spec fn step_actions(steps: Seq<SagaStep>) -> Seq<OpsActionKind> {
    Seq::new(steps.len(), |i: int| steps[i].spec_action())
}

/// Build the ordered step list for a deployment kind.
pub fn build_plan(kind: &DeploymentKind) -> (steps: Vec<SagaStep>)
    ensures
        step_actions(steps@) == plan_actions(*kind),
{
    let actions: Vec<OpsActionKind> = match kind {
        DeploymentKind::Provision => vec![
            OpsActionKind::ApplyInfra,
            OpsActionKind::TuneHost,
            OpsActionKind::StartValidator,
            OpsActionKind::AwaitCatchup,
        ],
        DeploymentKind::Upgrade { .. } => vec![
            OpsActionKind::Drain,
            OpsActionKind::StartValidator,
            OpsActionKind::AwaitCatchup,
        ],
        DeploymentKind::Failover { .. } => vec![OpsActionKind::Drain, OpsActionKind::SwapIdentity],
        DeploymentKind::Decommission => vec![OpsActionKind::Drain, OpsActionKind::DestroyInfra],
    };
    let mut steps: Vec<SagaStep> = Vec::new();
    let mut i: usize = 0;
    while i < actions.len()
        invariant
            i <= actions@.len(),
            actions@ == plan_actions(*kind),
            steps@.len() == i,
            forall|j: int| 0 <= j < i ==> #[trigger] steps@[j].spec_action() == actions@[j],
        decreases actions@.len() - i,
    {
        steps.push(SagaStep::for_action(actions[i]));
        i = i + 1;
    }
    proof {
        assert(step_actions(steps@) =~= actions@);
    }
    steps
}

/// What the executor asks for next.
#[derive(Debug, PartialEq, Eq)]
pub enum SagaCommand {
    /// Perform the forward effect of step `index`.
    Execute { index: usize, action: OpsActionKind, effect: StepEffect },
    /// Perform the compensation of step `index`.
    Compensate { index: usize, action: OpsActionKind, effect: StepEffect },
    /// The saga is over with this terminal status.
    Finish(RunStatus),
}

/// An observable step boundary, to be published as an event.
#[derive(Debug, Clone, Copy, PartialEq, Eq, Structural)]
pub enum SagaNotice {
    /// The forward action of a step completed.
    StepCompleted(OpsActionKind),
    /// A completed step was compensated.
    StepCompensated(OpsActionKind),
}

/// The indices `n - 1, n - 2, ..., n - k`: the first `k` steps of a reverse
/// walk over `n` completed steps.
pub open spec fn reverse_prefix(n: nat, k: nat) -> Seq<nat> {
    Seq::new(k, |i: int| (n - 1 - i) as nat)
}

/// Every entry is `true`.
pub open spec fn all_true(s: Seq<bool>) -> bool {
    forall|i: int| 0 <= i < s.len() ==> #[trigger] s[i]
}

/// How one recorded outcome moves a saga from `before` to `after` and the
/// run's audit trail from `run_before` to `run_after`, raising `notice`.
///
/// A completed forward step is appended to the run's completed steps and the
/// executor moves to the next step; a failed forward step starts the
/// compensation of every completed step; each compensation outcome moves to
/// the next older completed step.
pub open spec fn outcome_recorded(
    before: SagaExecutor,
    after: SagaExecutor,
    succeeded: bool,
    run_before: RunView,
    run_after: RunView,
    notice: Option<SagaNotice>,
) -> bool {
    &&& after.spec_actions() == before.spec_actions()
    &&& after.spec_ctx() == before.spec_ctx()
    &&& (!before.spec_compensating() && succeeded ==> {
        &&& after.spec_done() == before.spec_done() + 1
        &&& !after.spec_compensating()
        &&& run_after == (RunView {
            completed_steps: run_before.completed_steps.push(
                before.spec_actions()[before.spec_done() as int],
            ),
            ..run_before
        })
        &&& notice == Some(
            SagaNotice::StepCompleted(before.spec_actions()[before.spec_done() as int]),
        )
    })
    &&& (!before.spec_compensating() && !succeeded ==> {
        &&& after.spec_done() == before.spec_done()
        &&& after.spec_compensating()
        &&& after.spec_pending() == before.spec_done()
        &&& after.spec_results().len() == 0
        &&& run_after == run_before
        &&& notice is None
    })
    &&& (before.spec_compensating() ==> {
        let index = (before.spec_pending() - 1) as int;
        &&& after.spec_done() == before.spec_done()
        &&& after.spec_compensating()
        &&& after.spec_pending() == before.spec_pending() - 1
        &&& after.spec_attempted() == before.spec_attempted().push(index as nat)
        &&& after.spec_results() == before.spec_results().push(succeeded)
        &&& run_after == run_before
        &&& notice == if succeeded {
            Some(SagaNotice::StepCompensated(before.spec_actions()[index]))
        } else {
            None
        }
    })
}

/// Runs saga steps and compensates on failure.
///
/// While going forward, steps `0..done` have completed in order. After the
/// first failure the executor compensates the completed steps from the most
/// recent backwards; the terminal status is `Succeeded` when every step
/// completed, `RolledBack` when a step failed and every compensation
/// succeeded, and `Failed` when a compensation failed as well.
pub struct SagaExecutor {
    steps: Vec<SagaStep>,
    ctx: SagaContext,
    done: usize,
    pending: usize,
    compensating: bool,
    all_compensated: bool,
    attempted: Ghost<Seq<nat>>,
    results: Ghost<Seq<bool>>,
}

impl SagaExecutor {
    /// The actions of the plan being run.
    pub closed spec fn spec_actions(&self) -> Seq<OpsActionKind> {
        step_actions(self.steps@)
    }

    pub closed spec fn spec_ctx(&self) -> SagaContext {
        self.ctx
    }

    /// Number of forward steps that completed.
    pub closed spec fn spec_done(&self) -> nat {
        self.done as nat
    }

    /// Whether a forward step has failed.
    pub closed spec fn spec_compensating(&self) -> bool {
        self.compensating
    }

    /// Completed steps not yet compensated (while compensating).
    pub closed spec fn spec_pending(&self) -> nat {
        self.pending as nat
    }

    /// Indices of the steps whose compensation was attempted, in order.
    pub closed spec fn spec_attempted(&self) -> Seq<nat> {
        self.attempted@
    }

    /// Whether each attempted compensation succeeded, in order.
    pub closed spec fn spec_results(&self) -> Seq<bool> {
        self.results@
    }

    /// The executor's internal consistency.
    pub closed spec fn wf(&self) -> bool {
        &&& self.done <= self.steps@.len()
        &&& self.results@.len() == self.attempted@.len()
        &&& if self.compensating {
            &&& self.pending <= self.done
            &&& self.attempted@ == reverse_prefix(self.done as nat, (self.done - self.pending) as nat)
            &&& self.all_compensated == all_true(self.results@)
        } else {
            &&& self.attempted@.len() == 0
            &&& self.all_compensated
        }
    }

    /// Whether the saga has reached its terminal status.
    pub open spec fn spec_finished(&self) -> bool {
        if self.spec_compensating() {
            self.spec_pending() == 0
        } else {
            self.spec_done() == self.spec_actions().len()
        }
    }

    /// Start executing `steps` in context `ctx`.
    pub fn new(steps: Vec<SagaStep>, ctx: SagaContext) -> (ex: SagaExecutor)
        ensures
            ex.wf(),
            ex.spec_actions() == step_actions(steps@),
            ex.spec_ctx() == ctx,
            ex.spec_done() == 0,
            !ex.spec_compensating(),
    {
        SagaExecutor {
            steps,
            ctx,
            done: 0,
            pending: 0,
            compensating: false,
            all_compensated: true,
            attempted: Ghost(Seq::empty()),
            results: Ghost(Seq::empty()),
        }
    }

    /// Whether the saga has reached its terminal status.
    pub fn is_finished(&self) -> (b: bool)
        requires
            self.wf(),
        ensures
            b == self.spec_finished(),
    {
        if self.compensating {
            self.pending == 0
        } else {
            self.done == self.steps.len()
        }
    }

    /// The next thing to do.
    ///
    /// Going forward it is the next step's effect, or `Finish(Succeeded)`
    /// once every step completed. While compensating it is the compensation
    /// of the most recent completed step not yet compensated, or, once none
    /// is left, `Finish(RolledBack)` when every compensation succeeded and
    /// `Finish(Failed)` otherwise; by then the compensations attempted were
    /// exactly those of the completed steps, most recent first.
    pub fn next_command(&self) -> (c: SagaCommand)
        requires
            self.wf(),
        ensures
            self.spec_done() <= self.spec_actions().len(),
            self.spec_compensating() ==> self.spec_pending() <= self.spec_done(),
            !self.spec_compensating() && self.spec_done() < self.spec_actions().len() ==> (
            c matches SagaCommand::Execute { index, action, effect } && index
                == self.spec_done() && action == self.spec_actions()[index as int]
                && is_execute_effect(action, self.spec_ctx(), effect)),
            !self.spec_compensating() && self.spec_done() == self.spec_actions().len() ==> c
                == SagaCommand::Finish(RunStatus::Succeeded),
            self.spec_compensating() && self.spec_pending() > 0 ==> (
            c matches SagaCommand::Compensate { index, action, effect } && index + 1
                == self.spec_pending() && index < self.spec_done() && action
                == self.spec_actions()[index as int] && effect == compensate_effect(
                action,
                self.spec_ctx(),
            )),
            self.spec_compensating() && self.spec_pending() == 0 ==> {
                &&& self.spec_attempted() == reverse_prefix(self.spec_done(), self.spec_done())
                &&& c == SagaCommand::Finish(
                    if all_true(self.spec_results()) {
                        RunStatus::RolledBack
                    } else {
                        RunStatus::Failed
                    },
                )
            },
            self.spec_finished() ==> c == SagaCommand::Finish(terminal_status(*self)),
    {
        proof {
            assert(self.spec_actions().len() == self.steps@.len());
        }
        if !self.compensating {
            if self.done < self.steps.len() {
                let step = self.steps[self.done];
                let effect = step.execute(&self.ctx);
                SagaCommand::Execute { index: self.done, action: step.action(), effect }
            } else {
                SagaCommand::Finish(RunStatus::Succeeded)
            }
        } else if self.pending > 0 {
            let index: usize = self.pending - 1;
            let step = self.steps[index];
            let effect = step.compensate(&self.ctx);
            SagaCommand::Compensate { index, action: step.action(), effect }
        } else if self.all_compensated {
            SagaCommand::Finish(RunStatus::RolledBack)
        } else {
            SagaCommand::Finish(RunStatus::Failed)
        }
    }

    /// Record whether the effect asked for by [`Self::next_command`]
    /// succeeded, updating `run`'s audit trail.
    ///
    /// A completed forward step is appended to the run's completed steps and
    /// the executor moves to the next step; a failed forward step starts the
    /// compensation of every completed step; each compensation outcome moves
    /// to the next older completed step.
    pub fn record_outcome(&mut self, succeeded: bool, run: &mut DeploymentRun) -> (notice: Option<
        SagaNotice,
    >)
        requires
            old(self).wf(),
            !old(self).spec_finished(),
        ensures
            final(self).wf(),
            outcome_recorded(*old(self), *final(self), succeeded, old(run)@, final(run)@, notice),
    {
        proof {
            assert(self.spec_actions().len() == self.steps@.len());
        }
        if !self.compensating {
            assert(self.done < self.steps.len());
            let action = self.steps[self.done].action();
            if succeeded {
                run.record_step(action);
                self.done = self.done + 1;
                Some(SagaNotice::StepCompleted(action))
            } else {
                self.compensating = true;
                self.pending = self.done;
                self.all_compensated = true;
                proof {
                    assert(reverse_prefix(self.done as nat, 0) =~= Seq::<nat>::empty());
                    assert(self.attempted@ =~= reverse_prefix(self.done as nat, 0));
                    assert(all_true(self.results@));
                }
                None
            }
        } else {
            let index: usize = self.pending - 1;
            let action = self.steps[index].action();
            self.pending = index;
            self.attempted = Ghost(self.attempted@.push(index as nat));
            self.results = Ghost(self.results@.push(succeeded));
            if !succeeded {
                self.all_compensated = false;
            }
            proof {
                assert(self.attempted@ =~= reverse_prefix(
                    self.done as nat,
                    (self.done - self.pending) as nat,
                ));
                let rs = self.results@;
                let olds = old(self).results@;
                assert(rs =~= olds.push(succeeded));
                if self.all_compensated {
                    assert forall|i: int| 0 <= i < rs.len() implies #[trigger] rs[i] by {
                        if i < olds.len() {
                            assert(rs[i] == olds[i]);
                        }
                    }
                } else {
                    if succeeded {
                        assert(!old(self).all_compensated);
                        let k = choose|k: int| 0 <= k < olds.len() && !olds[k];
                        assert(rs[k] == olds[k]);
                    } else {
                        assert(!rs[rs.len() - 1]);
                    }
                }
                assert(self.all_compensated == all_true(self.results@));
            }
            if succeeded {
                Some(SagaNotice::StepCompensated(action))
            } else {
                None
            }
        }
    }
}


/// How much a saga has left to do, counted in recorded outcomes and one
/// more: while going forward, the steps left plus every completed step that
/// may still need undoing; while compensating, the completed steps not yet
/// undone.
pub open spec fn saga_budget(sg: SagaExecutor) -> int {
    if !sg.spec_compensating() {
        2 * sg.spec_actions().len() + 1 - sg.spec_done()
    } else {
        sg.spec_pending() as int
    }
}

/// A consistent executor never runs past its plan, and compensates only
/// completed steps.
pub proof fn lemma_saga_bounds(sg: SagaExecutor)
    requires
        sg.wf(),
    ensures
        sg.spec_done() <= sg.spec_actions().len(),
        sg.spec_compensating() ==> sg.spec_pending() <= sg.spec_done(),
        0 <= saga_budget(sg),
        !sg.spec_finished() ==> saga_budget(sg) >= 1,
{
}

/// Every recorded outcome brings a saga closer to its end: its budget
/// shrinks, so a saga of `n` steps records at most `2n` outcomes.
pub proof fn lemma_saga_progress(
    before: SagaExecutor,
    after: SagaExecutor,
    succeeded: bool,
    run_before: RunView,
    run_after: RunView,
    notice: Option<SagaNotice>,
)
    requires
        before.wf(),
        !before.spec_finished(),
        outcome_recorded(before, after, succeeded, run_before, run_after, notice),
    ensures
        0 <= saga_budget(after) < saga_budget(before),
{
    lemma_saga_bounds(before);
}

/// The status a finished saga ends with: `Succeeded` when no step failed,
/// otherwise `RolledBack` when every compensation succeeded and `Failed`
/// when one did not.
pub open spec fn terminal_status(sg: SagaExecutor) -> RunStatus {
    if !sg.spec_compensating() {
        RunStatus::Succeeded
    } else if all_true(sg.spec_results()) {
        RunStatus::RolledBack
    } else {
        RunStatus::Failed
    }
}

/// A whole run: `execs[i]` is the executor before outcome `outcomes[i]` is
/// recorded and `execs[i + 1]` the one after, with the run's audit trail
/// going from `runs[i]` to `runs[i + 1]` and `notices[i]` raised.
pub open spec fn saga_history(
    execs: Seq<SagaExecutor>,
    runs: Seq<RunView>,
    outcomes: Seq<bool>,
    notices: Seq<Option<SagaNotice>>,
) -> bool {
    &&& execs.len() == outcomes.len() + 1
    &&& runs.len() == outcomes.len() + 1
    &&& notices.len() == outcomes.len()
    &&& forall|i: int| 0 <= i < execs.len() ==> (#[trigger] execs[i]).wf()
    &&& forall|i: int|
        0 <= i < outcomes.len() ==> !execs[i].spec_finished() && outcome_recorded(
            execs[i],
            execs[i + 1],
            #[trigger] outcomes[i],
            runs[i],
            runs[i + 1],
            notices[i],
        )
}

/// A fresh executor: nothing done, nothing failed.
pub open spec fn saga_fresh(sg: SagaExecutor) -> bool {
    sg.spec_done() == 0 && !sg.spec_compensating()
}

/// While the first `i` outcomes are successes, step `m` (for each `m < i`)
/// ran as the `m`-th outcome and was appended to the audit trail.
proof fn lemma_forward_prefix(
    execs: Seq<SagaExecutor>,
    runs: Seq<RunView>,
    outcomes: Seq<bool>,
    notices: Seq<Option<SagaNotice>>,
    i: int,
)
    requires
        saga_history(execs, runs, outcomes, notices),
        saga_fresh(execs[0]),
        0 <= i <= outcomes.len(),
        forall|m: int| 0 <= m < i ==> #[trigger] outcomes[m],
    ensures
        !execs[i].spec_compensating(),
        execs[i].spec_done() == i,
        execs[i].spec_actions() == execs[0].spec_actions(),
        execs[i].spec_ctx() == execs[0].spec_ctx(),
        i <= execs[0].spec_actions().len(),
        runs[i] == (RunView {
            completed_steps: runs[0].completed_steps + execs[0].spec_actions().take(i),
            ..runs[0]
        }),
        forall|m: int| 0 <= m < i ==> !(#[trigger] execs[m]).spec_compensating() && execs[m].spec_done() == m,
        forall|m: int|
            0 <= m < i ==> #[trigger] notices[m] == Some(
                SagaNotice::StepCompleted(execs[0].spec_actions()[m]),
            ),
    decreases i,
{
    if i == 0 {
        assert(execs[0].spec_actions().take(0) =~= Seq::<OpsActionKind>::empty());
        assert(runs[0].completed_steps + Seq::<OpsActionKind>::empty() =~= runs[0].completed_steps);
    } else {
        lemma_forward_prefix(execs, runs, outcomes, notices, i - 1);
        let prev = execs[i - 1];
        assert(outcomes[i - 1]);
        assert(prev.wf());
        lemma_saga_bounds(prev);
        assert(execs[0].spec_actions().take(i) =~= execs[0].spec_actions().take(i - 1).push(
            execs[0].spec_actions()[i - 1],
        ));
        assert(runs[0].completed_steps + execs[0].spec_actions().take(i) =~= (runs[0].completed_steps
            + execs[0].spec_actions().take(i - 1)).push(execs[0].spec_actions()[i - 1]));
    }
}

/// After step `k` failed, the `j`-th recorded outcome that follows it (for
/// each `j` reached) is the compensation of step `k - 1 - j`; the audit trail
/// no longer changes.
proof fn lemma_compensation_prefix(
    execs: Seq<SagaExecutor>,
    runs: Seq<RunView>,
    outcomes: Seq<bool>,
    notices: Seq<Option<SagaNotice>>,
    k: int,
    j: int,
)
    requires
        saga_history(execs, runs, outcomes, notices),
        0 <= k < outcomes.len(),
        !outcomes[k],
        !execs[k].spec_compensating(),
        execs[k].spec_done() == k,
        0 <= j,
        k + 1 + j < execs.len(),
    ensures
        j <= k,
        execs[k + 1 + j].spec_compensating(),
        execs[k + 1 + j].spec_done() == k,
        execs[k + 1 + j].spec_pending() == k - j,
        execs[k + 1 + j].spec_actions() == execs[k].spec_actions(),
        execs[k + 1 + j].spec_results() == outcomes.subrange(k + 1, k + 1 + j),
        execs[k + 1 + j].spec_attempted() == reverse_prefix(k as nat, j as nat),
        runs[k + 1 + j] == runs[k],
        notices[k] is None,
        forall|m: int|
            0 <= m < j ==> #[trigger] notices[k + 1 + m] == if outcomes[k + 1 + m] {
                Some(SagaNotice::StepCompensated(execs[k].spec_actions()[k - 1 - m]))
            } else {
                None
            },
    decreases j,
{
    assert(outcome_recorded(execs[k], execs[k + 1], outcomes[k], runs[k], runs[k + 1], notices[k]));
    if j == 0 {
        assert(execs[k + 1].wf());
        assert(outcomes.subrange(k + 1, k + 1) =~= Seq::<bool>::empty());
    } else {
        lemma_compensation_prefix(execs, runs, outcomes, notices, k, j - 1);
        let at = k + j;
        assert(at < outcomes.len());
        assert(outcome_recorded(
            execs[at],
            execs[at + 1],
            outcomes[at],
            runs[at],
            runs[at + 1],
            notices[at],
        ));
        assert(!execs[at].spec_finished());
        assert(execs[at + 1].wf());
        assert(outcomes.subrange(k + 1, k + 1 + j) =~= outcomes.subrange(k + 1, k + j).push(
            outcomes[at],
        ));
    }
}

/// When every step succeeds, the saga runs each step exactly once, in plan
/// order, and finishes `Succeeded`: the run's completed steps grow by the
/// plan's actions in order, and one `StepCompleted` notice is raised per
/// step, in order. No compensation is ever asked for.
pub proof fn lemma_saga_all_succeed(
    execs: Seq<SagaExecutor>,
    runs: Seq<RunView>,
    outcomes: Seq<bool>,
    notices: Seq<Option<SagaNotice>>,
)
    requires
        saga_history(execs, runs, outcomes, notices),
        saga_fresh(execs[0]),
        execs.last().spec_finished(),
        all_true(outcomes),
    ensures
        outcomes.len() == execs[0].spec_actions().len(),
        forall|m: int|
            0 <= m < outcomes.len() ==> !(#[trigger] execs[m]).spec_compensating()
                && execs[m].spec_done() == m,
        terminal_status(execs.last()) == RunStatus::Succeeded,
        runs.last() == (RunView {
            completed_steps: runs[0].completed_steps + execs[0].spec_actions(),
            ..runs[0]
        }),
        forall|m: int|
            0 <= m < outcomes.len() ==> #[trigger] notices[m] == Some(
                SagaNotice::StepCompleted(execs[0].spec_actions()[m]),
            ),
{
    let n = outcomes.len() as int;
    assert forall|m: int| 0 <= m < n implies #[trigger] outcomes[m] by {}
    lemma_forward_prefix(execs, runs, outcomes, notices, n);
    assert(execs.last() == execs[n]);
    assert(runs.last() == runs[n]);
    assert(execs[0].spec_actions().take(n) =~= execs[0].spec_actions());
}

/// When steps `0..k` succeed and step `k` fails, the saga never runs a step
/// after `k` and records exactly `2k + 1` outcomes: steps `0..k` forward in
/// order, the failed step `k`, then one compensation for each completed step,
/// `k - 1` down to `0`, each attempted even after another failed. The run's
/// completed steps grow by the actions of steps `0..k` only. It finishes
/// `RolledBack` when every compensation succeeded (also when `k == 0`) and
/// `Failed` otherwise, never `Succeeded`; a `StepCompensated` notice is raised
/// exactly for the compensations that succeeded.
pub proof fn lemma_saga_step_fails(
    execs: Seq<SagaExecutor>,
    runs: Seq<RunView>,
    outcomes: Seq<bool>,
    notices: Seq<Option<SagaNotice>>,
    k: int,
)
    requires
        saga_history(execs, runs, outcomes, notices),
        saga_fresh(execs[0]),
        execs.last().spec_finished(),
        0 <= k < outcomes.len(),
        forall|m: int| 0 <= m < k ==> #[trigger] outcomes[m],
        !outcomes[k],
    ensures
        k < execs[0].spec_actions().len(),
        outcomes.len() == 2 * k + 1,
        forall|m: int|
            0 <= m <= k ==> !(#[trigger] execs[m]).spec_compensating()
                && execs[m].spec_done() == m,
        forall|m: int|
            0 <= m < k ==> (#[trigger] execs[k + 1 + m]).spec_compensating()
                && execs[k + 1 + m].spec_pending() == k - m,
        execs.last().spec_attempted() == reverse_prefix(k as nat, k as nat),
        execs.last().spec_results() == outcomes.subrange(k + 1, 2 * k + 1),
        terminal_status(execs.last()) == if all_true(outcomes.subrange(k + 1, 2 * k + 1)) {
            RunStatus::RolledBack
        } else {
            RunStatus::Failed
        },
        runs.last() == (RunView {
            completed_steps: runs[0].completed_steps + execs[0].spec_actions().take(k),
            ..runs[0]
        }),
        forall|m: int|
            0 <= m < k ==> #[trigger] notices[m] == Some(
                SagaNotice::StepCompleted(execs[0].spec_actions()[m]),
            ),
        notices[k] is None,
        forall|m: int|
            0 <= m < k ==> #[trigger] notices[k + 1 + m] == if outcomes[k + 1 + m] {
                Some(SagaNotice::StepCompensated(execs[0].spec_actions()[k - 1 - m]))
            } else {
                None
            },
{
    lemma_forward_prefix(execs, runs, outcomes, notices, k);
    assert(execs[k].wf());
    lemma_saga_bounds(execs[k]);
    let last = outcomes.len() as int;
    let j = last - k - 1;
    lemma_compensation_prefix(execs, runs, outcomes, notices, k, j);
    assert(execs.last() == execs[last]);
    assert(runs.last() == runs[last]);
    if j < k {
        assert(execs[last].spec_pending() > 0);
        assert(!execs[last].spec_finished());
    }
    assert(j == k);
    assert forall|m: int| 0 <= m < k implies (#[trigger] execs[k + 1 + m]).spec_compensating()
        && execs[k + 1 + m].spec_pending() == k - m by {
        lemma_compensation_prefix(execs, runs, outcomes, notices, k, m);
    }
}

/// The plans bring a node up, move it and take it down in a safe order: a
/// provision applies infrastructure first, tunes the host before starting
/// the validator, and waits for catch-up last; an upgrade drains before
/// restarting and waits for catch-up last; a failover drains before swapping
/// the identity; a decommission drains before destroying the
/// infrastructure. Infrastructure is applied only by a provision, destroyed
/// only by a decommission, and the identity swapped only by a failover; no
/// plan repeats a step.
pub proof fn lemma_plan_order(kind: DeploymentKind)
    ensures
        forall|i: int, j: int|
            0 <= i < j < plan_actions(kind).len() ==> plan_actions(kind)[i] != plan_actions(kind)[j],
        plan_actions(kind).contains(OpsActionKind::ApplyInfra) <==> kind is Provision,
        plan_actions(kind).contains(OpsActionKind::DestroyInfra) <==> kind is Decommission,
        plan_actions(kind).contains(OpsActionKind::SwapIdentity) <==> kind is Failover,
        kind is Provision ==> plan_actions(kind).first() == OpsActionKind::ApplyInfra
            && plan_actions(kind).last() == OpsActionKind::AwaitCatchup && plan_actions(kind).index_of(
            OpsActionKind::TuneHost,
        ) < plan_actions(kind).index_of(OpsActionKind::StartValidator),
        kind is Upgrade ==> plan_actions(kind).first() == OpsActionKind::Drain && plan_actions(
            kind,
        ).contains(OpsActionKind::StartValidator) && plan_actions(kind).last()
            == OpsActionKind::AwaitCatchup,
        kind is Failover ==> plan_actions(kind) == seq![
            OpsActionKind::Drain,
            OpsActionKind::SwapIdentity,
        ],
        kind is Decommission ==> plan_actions(kind) == seq![
            OpsActionKind::Drain,
            OpsActionKind::DestroyInfra,
        ],
{
    let p = plan_actions(kind);
    match kind {
        DeploymentKind::Provision => {
            assert(p[0] == OpsActionKind::ApplyInfra);
            assert(p[1] == OpsActionKind::TuneHost);
            assert(p[2] == OpsActionKind::StartValidator);
            p.index_of_first_ensures(OpsActionKind::TuneHost);
            assert(p.index_of(OpsActionKind::TuneHost) == 1);
            assert(p.index_of(OpsActionKind::StartValidator) == 2);
        },
        DeploymentKind::Upgrade { .. } => {
            assert(p[1] == OpsActionKind::StartValidator);
        },
        _ => {},
    }
    assert(!p.contains(OpsActionKind::ApplyInfra) ==> !(kind is Provision)) by {
        if kind is Provision {
            assert(p[0] == OpsActionKind::ApplyInfra);
        }
    }
    assert(!p.contains(OpsActionKind::DestroyInfra) ==> !(kind is Decommission)) by {
        if kind is Decommission {
            assert(p[1] == OpsActionKind::DestroyInfra);
        }
    }
    assert(!p.contains(OpsActionKind::SwapIdentity) ==> !(kind is Failover)) by {
        if kind is Failover {
            assert(p[1] == OpsActionKind::SwapIdentity);
        }
    }
}

} // verus!
