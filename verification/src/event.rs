//! Domain events emitted by the ops engine.

use vstd::prelude::*;

use crate::health::HealthStatus;
use crate::ids::{NodeId, RunId};
use crate::node::NodeState;
use crate::ops::{DeploymentKind, OpsActionKind, RunStatus};
use crate::time::Timestamp;

verus! {

/// An event published whenever the control plane changes fleet state.
#[derive(Debug, PartialEq, Eq)]
pub enum OpsEvent {
    /// A new orchestration run has begun.
    RunStarted { run: RunId, node: NodeId, kind: DeploymentKind, at: Timestamp },
    /// A saga step finished its forward action successfully.
    StepCompleted { run: RunId, action: OpsActionKind, at: Timestamp },
    /// A saga step was compensated (rolled back) after a failure.
    StepCompensated { run: RunId, action: OpsActionKind, at: Timestamp },
    /// A node moved between lifecycle states.
    NodeStateChanged { node: NodeId, from: NodeState, to: NodeState, at: Timestamp },
    /// A health snapshot was evaluated.
    HealthEvaluated { node: NodeId, status: HealthStatus, at: Timestamp },
    /// An orchestration run reached a terminal status.
    RunFinished { run: RunId, status: RunStatus, at: Timestamp },
}

impl Clone for OpsEvent {
    fn clone(&self) -> (r: Self)
        ensures
            r == *self,
    {
        match self {
            OpsEvent::RunStarted { run, node, kind, at } => OpsEvent::RunStarted {
                run: *run,
                node: node.clone(),
                kind: kind.clone(),
                at: *at,
            },
            OpsEvent::StepCompleted { run, action, at } => OpsEvent::StepCompleted {
                run: *run,
                action: *action,
                at: *at,
            },
            OpsEvent::StepCompensated { run, action, at } => OpsEvent::StepCompensated {
                run: *run,
                action: *action,
                at: *at,
            },
            OpsEvent::NodeStateChanged { node, from, to, at } => OpsEvent::NodeStateChanged {
                node: node.clone(),
                from: *from,
                to: *to,
                at: *at,
            },
            OpsEvent::HealthEvaluated { node, status, at } => OpsEvent::HealthEvaluated {
                node: node.clone(),
                status: *status,
                at: *at,
            },
            OpsEvent::RunFinished { run, status, at } => OpsEvent::RunFinished {
                run: *run,
                status: *status,
                at: *at,
            },
        }
    }
}

pub open spec fn event_kind_text(e: OpsEvent) -> &'static str {
    match e {
        OpsEvent::RunStarted { .. } => "run_started",
        OpsEvent::StepCompleted { .. } => "step_completed",
        OpsEvent::StepCompensated { .. } => "step_compensated",
        OpsEvent::NodeStateChanged { .. } => "node_state_changed",
        OpsEvent::HealthEvaluated { .. } => "health_evaluated",
        OpsEvent::RunFinished { .. } => "run_finished",
    }
}

impl OpsEvent {
    /// The event's discriminant string (for metrics labels).
    pub fn kind(&self) -> (k: &'static str)
        ensures
            k == event_kind_text(*self),
    {
        match self {
            OpsEvent::RunStarted { .. } => "run_started",
            OpsEvent::StepCompleted { .. } => "step_completed",
            OpsEvent::StepCompensated { .. } => "step_compensated",
            OpsEvent::NodeStateChanged { .. } => "node_state_changed",
            OpsEvent::HealthEvaluated { .. } => "health_evaluated",
            OpsEvent::RunFinished { .. } => "run_finished",
        }
    }
}

} // verus!
