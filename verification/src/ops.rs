//! Ops / deployment value objects: the kinds of orchestration the control
//! plane runs, and the run record that tracks a saga's progress.

use vstd::prelude::*;

use crate::ids::{NodeId, RunId, ValidatorVersion};
use crate::time::Timestamp;

verus! {

/// The kind of deployment orchestration a run performs.
#[derive(Debug, PartialEq, Eq)]
pub enum DeploymentKind {
    /// Provision a brand-new node and bring it to `Active`.
    Provision,
    /// Zero-downtime upgrade to a target version via drain + restart.
    Upgrade {
        /// The version to upgrade to.
        target_version: ValidatorVersion,
    },
    /// Fail the active identity over to a hot spare.
    Failover {
        /// The hot-spare node that should take over the identity.
        spare: NodeId,
    },
    /// Drain and decommission a node.
    Decommission,
}

impl Clone for DeploymentKind {
    fn clone(&self) -> (r: Self)
        ensures
            r == *self,
    {
        match self {
            DeploymentKind::Provision => DeploymentKind::Provision,
            DeploymentKind::Upgrade { target_version } => DeploymentKind::Upgrade {
                target_version: target_version.clone(),
            },
            DeploymentKind::Failover { spare } => DeploymentKind::Failover { spare: spare.clone() },
            DeploymentKind::Decommission => DeploymentKind::Decommission,
        }
    }
}

pub open spec fn deployment_kind_text(k: DeploymentKind) -> &'static str {
    match k {
        DeploymentKind::Provision => "provision",
        DeploymentKind::Upgrade { .. } => "upgrade",
        DeploymentKind::Failover { .. } => "failover",
        DeploymentKind::Decommission => "decommission",
    }
}

impl DeploymentKind {
    /// Stable wire discriminant.
    pub fn as_str(&self) -> (s: &'static str)
        ensures
            s == deployment_kind_text(*self),
    {
        match self {
            DeploymentKind::Provision => "provision",
            DeploymentKind::Upgrade { .. } => "upgrade",
            DeploymentKind::Failover { .. } => "failover",
            DeploymentKind::Decommission => "decommission",
        }
    }
}

/// A discrete imperative action a saga step asks a node agent to perform.
#[derive(Debug, Clone, Copy, PartialEq, Eq, Hash, Structural)]
pub enum OpsActionKind {
    /// Render + apply infrastructure (Terraform plan, Ansible playbook).
    ApplyInfra,
    /// Tune the host OS (sysctl, hugepages, CPU pinning, NIC).
    TuneHost,
    /// Start the validator process and fetch a snapshot.
    StartValidator,
    /// Wait until the node has caught up to the cluster tip.
    AwaitCatchup,
    /// Gracefully drain (stop voting, set identity to a junk keypair).
    Drain,
    /// Swap the staked identity onto the target node.
    SwapIdentity,
    /// Decommission the host (Terraform destroy).
    DestroyInfra,
}

pub open spec fn action_text(a: OpsActionKind) -> &'static str {
    match a {
        OpsActionKind::ApplyInfra => "apply_infra",
        OpsActionKind::TuneHost => "tune_host",
        OpsActionKind::StartValidator => "start_validator",
        OpsActionKind::AwaitCatchup => "await_catchup",
        OpsActionKind::Drain => "drain",
        OpsActionKind::SwapIdentity => "swap_identity",
        OpsActionKind::DestroyInfra => "destroy_infra",
    }
}

impl OpsActionKind {
    /// Stable wire string (also the display form).
    pub fn as_str(self) -> (s: &'static str)
        ensures
            s == action_text(self),
    {
        match self {
            OpsActionKind::ApplyInfra => "apply_infra",
            OpsActionKind::TuneHost => "tune_host",
            OpsActionKind::StartValidator => "start_validator",
            OpsActionKind::AwaitCatchup => "await_catchup",
            OpsActionKind::Drain => "drain",
            OpsActionKind::SwapIdentity => "swap_identity",
            OpsActionKind::DestroyInfra => "destroy_infra",
        }
    }
}

/// Outcome of a single saga step.
#[derive(Debug, Clone, Copy, PartialEq, Eq, Structural)]
pub enum SagaStepOutcome {
    /// The forward action succeeded.
    Completed,
    /// The forward action failed and was compensated (rolled back).
    Compensated,
    /// The step was skipped (precondition already satisfied).
    Skipped,
}

pub open spec fn step_outcome_text(o: SagaStepOutcome) -> &'static str {
    match o {
        SagaStepOutcome::Completed => "completed",
        SagaStepOutcome::Compensated => "compensated",
        SagaStepOutcome::Skipped => "skipped",
    }
}

impl SagaStepOutcome {
    /// Stable wire string.
    pub fn as_str(self) -> (s: &'static str)
        ensures
            s == step_outcome_text(self),
    {
        match self {
            SagaStepOutcome::Completed => "completed",
            SagaStepOutcome::Compensated => "compensated",
            SagaStepOutcome::Skipped => "skipped",
        }
    }
}

/// Terminal/in-flight status of a whole orchestration run.
#[derive(Debug, Clone, Copy, PartialEq, Eq, Structural)]
pub enum RunStatus {
    /// Saga is executing.
    Running,
    /// All steps completed successfully.
    Succeeded,
    /// A step failed and the saga compensated back to a safe state.
    RolledBack,
    /// A step failed and compensation also failed (needs human attention).
    Failed,
}

pub open spec fn run_status_text(s: RunStatus) -> &'static str {
    match s {
        RunStatus::Running => "running",
        RunStatus::Succeeded => "succeeded",
        RunStatus::RolledBack => "rolled_back",
        RunStatus::Failed => "failed",
    }
}

impl RunStatus {
    /// Stable wire string (also the display form).
    pub fn as_str(self) -> (s: &'static str)
        ensures
            s == run_status_text(self),
    {
        match self {
            RunStatus::Running => "running",
            RunStatus::Succeeded => "succeeded",
            RunStatus::RolledBack => "rolled_back",
            RunStatus::Failed => "failed",
        }
    }

    /// Whether the run has reached a terminal status.
    pub fn is_terminal(self) -> (b: bool)
        ensures
            b == (self != RunStatus::Running),
    {
        match self {
            RunStatus::Running => false,
            _ => true,
        }
    }
}

/// The abstract content of a [`DeploymentRun`].
pub struct RunView {
    pub id: RunId,
    pub target: Seq<char>,
    pub kind: DeploymentKind,
    pub status: RunStatus,
    pub completed_steps: Seq<OpsActionKind>,
    pub started_at: Timestamp,
    pub finished_at: Option<Timestamp>,
}

/// A record of one orchestration run (the saga's audit trail / read model).
#[derive(Debug, PartialEq, Eq)]
pub struct DeploymentRun {
    id: RunId,
    target: NodeId,
    kind: DeploymentKind,
    status: RunStatus,
    completed_steps: Vec<OpsActionKind>,
    started_at: Timestamp,
    finished_at: Option<Timestamp>,
}

impl View for DeploymentRun {
    type V = RunView;

    closed spec fn view(&self) -> RunView {
        RunView {
            id: self.id,
            target: self.target@,
            kind: self.kind,
            status: self.status,
            completed_steps: self.completed_steps@,
            started_at: self.started_at,
            finished_at: self.finished_at,
        }
    }
}

impl Clone for DeploymentRun {
    fn clone(&self) -> (r: Self)
        ensures
            r@ == self@,
    {
        let mut steps: Vec<OpsActionKind> = Vec::new();
        let mut i: usize = 0;
        while i < self.completed_steps.len()
            invariant
                i <= self.completed_steps@.len(),
                steps@ == self.completed_steps@.subrange(0, i as int),
            decreases self.completed_steps@.len() - i,
        {
            steps.push(self.completed_steps[i]);
            i = i + 1;
            proof {
                assert(steps@ =~= self.completed_steps@.subrange(0, i as int));
            }
        }
        proof {
            assert(steps@ =~= self.completed_steps@);
        }
        DeploymentRun {
            id: self.id,
            target: self.target.clone(),
            kind: self.kind.clone(),
            status: self.status,
            completed_steps: steps,
            started_at: self.started_at,
            finished_at: self.finished_at,
        }
    }
}

impl DeploymentRun {
    /// Open a new run in [`RunStatus::Running`] with no completed steps.
    pub fn new(id: RunId, target: NodeId, kind: DeploymentKind, started_at: Timestamp) -> (r:
        DeploymentRun)
        ensures
            r@ == (RunView {
                id,
                target: target@,
                kind,
                status: RunStatus::Running,
                completed_steps: Seq::empty(),
                started_at,
                finished_at: None,
            }),
    {
        DeploymentRun {
            id,
            target,
            kind,
            status: RunStatus::Running,
            completed_steps: Vec::new(),
            started_at,
            finished_at: None,
        }
    }

    /// Rebuild a run read back from storage, exactly as it was saved.
    pub fn restore(
        id: RunId,
        target: NodeId,
        kind: DeploymentKind,
        status: RunStatus,
        completed_steps: Vec<OpsActionKind>,
        started_at: Timestamp,
        finished_at: Option<Timestamp>,
    ) -> (r: DeploymentRun)
        ensures
            r@ == (RunView {
                id,
                target: target@,
                kind,
                status,
                completed_steps: completed_steps@,
                started_at,
                finished_at,
            }),
    {
        DeploymentRun { id, target, kind, status, completed_steps, started_at, finished_at }
    }

    /// The run id.
    pub fn id(&self) -> (r: RunId)
        ensures
            r == self@.id,
    {
        self.id
    }

    /// The targeted node.
    pub fn target(&self) -> (r: &NodeId)
        ensures
            r@ == self@.target,
    {
        &self.target
    }

    /// The deployment kind.
    pub fn kind(&self) -> (r: &DeploymentKind)
        ensures
            *r == self@.kind,
    {
        &self.kind
    }

    /// Current status.
    pub fn status(&self) -> (r: RunStatus)
        ensures
            r == self@.status,
    {
        self.status
    }

    /// The steps completed so far (forward actions only), in order.
    pub fn completed_steps(&self) -> (r: &[OpsActionKind])
        ensures
            r@ == self@.completed_steps,
    {
        self.completed_steps.as_slice()
    }

    /// When the run started.
    pub fn started_at(&self) -> (r: Timestamp)
        ensures
            r == self@.started_at,
    {
        self.started_at
    }

    /// When the run finished, if terminal.
    pub fn finished_at(&self) -> (r: Option<Timestamp>)
        ensures
            r == self@.finished_at,
    {
        self.finished_at
    }

    /// Record a successfully completed forward step.
    pub fn record_step(&mut self, action: OpsActionKind)
        ensures
            final(self)@ == (RunView {
                completed_steps: old(self)@.completed_steps.push(action),
                ..old(self)@
            }),
    {
        self.completed_steps.push(action);
    }

    /// Mark the run terminal with the given status at `now`.
    pub fn finish(&mut self, status: RunStatus, now: Timestamp)
        ensures
            final(self)@ == (RunView { status, finished_at: Some(now), ..old(self)@ }),
    {
        self.status = status;
        self.finished_at = Some(now);
    }
}

} // verus!
