//! [`OpsEngine`]: the decisions of the orchestration service — admission
//! control, run preparation, and settling a node once its saga has run.
//!
//! A deployment proceeds as: [`OpsEngine::acquire_admission`] (rate limit, then
//! bulkhead); look the node (and, for a failover, the spare) up;
//! [`OpsEngine::prepare`] the run record and the saga; drive the saga; then
//! [`OpsEngine::settle`] the node's lifecycle state and finish the run.

use vstd::prelude::*;

use crate::bulkhead::{Bulkhead, BulkheadGuard, MAX_BULKHEAD_CAPACITY};
use crate::clock::SystemClock;
use crate::config::OpsConfig;
use crate::core_error::{CoreError, PortError};
use crate::event::OpsEvent;
use crate::error::DomainError;
use crate::health::{classify_spec, lag_of, HealthSnapshot, HealthStatus};
use crate::ids::{NodeId, RunId};
use crate::node::{state_text, transition_allowed, NodeState, NodeView, ValidatorNode};
use crate::ops::{DeploymentKind, DeploymentRun, RunStatus, RunView};
use crate::ratelimit::{admits, after_request, BucketView, RateLimiter};
use crate::saga::{build_plan, plan_actions, SagaContext, SagaExecutor};
use crate::time::{trunc_div, Timestamp};

verus! {

/// Node-state transitions to apply after a successful saga of `kind`.
pub open spec fn success_path_spec(kind: DeploymentKind) -> Seq<NodeState> {
    match kind {
        DeploymentKind::Provision => seq![
            NodeState::Bootstrapping,
            NodeState::CatchingUp,
            NodeState::Active,
        ],
        DeploymentKind::Upgrade { .. } => seq![
            NodeState::Draining,
            NodeState::CatchingUp,
            NodeState::Active,
        ],
        _ => seq![NodeState::Draining, NodeState::Decommissioned],
    }
}

/// Node-state transitions to apply after a failed or rolled-back saga: a
/// provisioning node that never came up is failed; otherwise compensation
/// restored a safe state and the node is left as it is.
pub open spec fn failure_path_spec(kind: DeploymentKind) -> Seq<NodeState> {
    match kind {
        DeploymentKind::Provision => seq![NodeState::Failed],
        _ => Seq::empty(),
    }
}

/// The transitions that follow a saga of `kind` ending in `status`.
pub open spec fn settle_path(kind: DeploymentKind, status: RunStatus) -> Seq<NodeState> {
    if status == RunStatus::Succeeded {
        success_path_spec(kind)
    } else {
        failure_path_spec(kind)
    }
}

/// Walk the moves of `path` from `from` while the state machine allows
/// them: how many moves were applied, and the state reached.
pub open spec fn walk(from: NodeState, path: Seq<NodeState>) -> (nat, NodeState)
    decreases path.len(),
{
    if path.len() == 0 {
        (0, from)
    } else if !transition_allowed(from, path[0]) {
        (0, from)
    } else {
        let rest = walk(path[0], path.drop_first());
        (rest.0 + 1, rest.1)
    }
}

/// One applied lifecycle move, to be published as an event.
#[derive(Debug, Clone, Copy, PartialEq, Eq, Structural)]
pub struct NodeStateChange {
    pub from: NodeState,
    pub to: NodeState,
}

/// What settling `before` after a saga of `kind` ending in `status` at `now`
/// gives: the moves of the settle path are applied in order while the state
/// machine allows them, each recorded in `changes`; the first refused move is
/// the `IllegalTransition` error in `result`; a successful upgrade records its
/// target version; everything else about the node is kept.
pub open spec fn settle_outcome(
    before: NodeView,
    after: NodeView,
    changes: Seq<NodeStateChange>,
    result: Result<(), DomainError>,
    kind: DeploymentKind,
    status: RunStatus,
    now: Timestamp,
) -> bool {
    &&& (changes.len() == walk(before.state, settle_path(kind, status)).0)
    &&& (after.state == walk(before.state, settle_path(kind, status)).1)
    &&& (result is Ok <==> walk(before.state, settle_path(kind, status)).0 == settle_path(
        kind,
        status,
    ).len())
    &&& (result is Err ==> result->Err_0 == (DomainError::IllegalTransition {
        from: state_text(walk(before.state, settle_path(kind, status)).1),
        to: state_text(
            settle_path(kind, status)[walk(
                before.state,
                settle_path(kind, status),
            ).0 as int],
        ),
    }))
    &&& (forall|j: int|
        0 <= j < changes.len() ==> (#[trigger] changes[j]).to == settle_path(kind, status)[j]
            && changes[j].from == if j == 0 {
            before.state
        } else {
            settle_path(kind, status)[j - 1]
        })
    &&& (after.version == if result is Ok && status == RunStatus::Succeeded && kind is Upgrade {
        kind->target_version@
    } else {
        before.version
    })
    &&& (after.updated_at == if walk(before.state, settle_path(kind, status)).0 > 0
        || (result is Ok && status == RunStatus::Succeeded && kind is Upgrade) {
        now
    } else {
        before.updated_at
    })
    &&& (after.id == before.id)
    &&& (after.cluster_name == before.cluster_name)
    &&& (after.cluster == before.cluster)
    &&& (after.host == before.host)
    &&& (after.role == before.role)
    &&& (after.created_at == before.created_at)
}

/// The orchestration service's own state: the admission limiter and
/// bulkhead, the configuration, and the run-id counter.
pub struct OpsEngine {
    limiter: RateLimiter<SystemClock>,
    bulkhead: Bulkhead,
    cfg: OpsConfig,
    next_run: u64,
}

impl OpsEngine {
    pub closed spec fn spec_limiter(&self) -> BucketView {
        self.limiter.view()
    }

    pub closed spec fn spec_config(&self) -> OpsConfig {
        self.cfg
    }

    /// The id the next prepared run receives.
    pub closed spec fn spec_next_run(&self) -> u64 {
        self.next_run
    }

    pub closed spec fn wf(&self) -> bool {
        self.limiter.wf()
    }

    /// Wire the engine from `cfg`: a full admission bucket of
    /// `rate_capacity` refilling at `rate_per_sec`, a bulkhead of
    /// `max_concurrent_deploys` slots, and run ids starting at 1.
    pub fn new(cfg: OpsConfig) -> (e: OpsEngine)
        requires
            cfg.max_concurrent_deploys <= MAX_BULKHEAD_CAPACITY,
        ensures
            e.wf(),
            e.spec_config() == cfg,
            e.spec_next_run() == 1,
            e.spec_limiter().capacity == cfg.rate_capacity,
            e.spec_limiter().refill_per_sec == cfg.rate_per_sec,
            e.spec_limiter().tokens == cfg.rate_capacity * 1000,
    {
        OpsEngine {
            limiter: RateLimiter::new(SystemClock::new(), cfg.rate_capacity, cfg.rate_per_sec),
            bulkhead: Bulkhead::new(cfg.max_concurrent_deploys),
            cfg,
            next_run: 1,
        }
    }

    /// The engine's configuration.
    pub fn config(&self) -> (c: OpsConfig)
        ensures
            c == self.spec_config(),
    {
        self.cfg
    }

    /// Admission control for a deployment: one token from the rate limiter,
    /// then a free bulkhead slot (held until the returned guard is dropped).
    /// Either exhausted yields `Throttled`; a request the limiter refuses does
    /// not touch the bulkhead.
    pub fn acquire_admission(&mut self) -> (r: Result<BulkheadGuard, CoreError>)
        requires
            old(self).wf(),
        ensures
            final(self).wf(),
            final(self).spec_config() == old(self).spec_config(),
            final(self).spec_next_run() == old(self).spec_next_run(),
            exists|now: u64|
                {
                    &&& final(self).spec_limiter() == after_request(
                        old(self).spec_limiter(),
                        now,
                        1,
                    )
                    &&& !admits(old(self).spec_limiter(), now, 1) ==> r == Err::<
                        BulkheadGuard,
                        CoreError,
                    >(CoreError::Throttled)
                },
            r is Err ==> r->Err_0 == CoreError::Throttled,
    {
        let admitted = self.limiter.try_acquire();
        let ghost now = choose|now: u64|
            admitted == admits(old(self).spec_limiter(), now, 1) && self.spec_limiter()
                == after_request(old(self).spec_limiter(), now, 1);
        if !admitted {
            return Err(CoreError::Throttled);
        }
        match self.bulkhead.try_acquire() {
            Some(guard) => Ok(guard),
            None => Err(CoreError::Throttled),
        }
    }

    /// Take the next run id; ids count up from 1 (wrapping at `u64::MAX`).
    pub fn allocate_run_id(&mut self) -> (id: RunId)
        ensures
            id.0 == old(self).spec_next_run(),
            final(self).spec_next_run() == if old(self).spec_next_run() == u64::MAX {
                0
            } else {
                (old(self).spec_next_run() + 1) as u64
            },
            final(self).spec_config() == old(self).spec_config(),
            final(self).spec_limiter() == old(self).spec_limiter(),
            final(self).wf() == old(self).wf(),
    {
        let id: u64 = self.next_run;
        self.next_run = self.next_run.wrapping_add(1);
        RunId(id as u128)
    }

    /// Open the run record and the saga for deploying `kind` to `node`.
    ///
    /// The run gets the next id, targets the node, and starts at `now`; the
    /// saga runs the plan for `kind` on the node's host, with the upgrade's
    /// target version (otherwise the node's current version) and, for a
    /// failover, the spare's host.
    pub fn prepare(
        &mut self,
        node: &ValidatorNode,
        kind: &DeploymentKind,
        spare: Option<&ValidatorNode>,
        now: Timestamp,
    ) -> (r: (DeploymentRun, SagaExecutor))
        requires
            (*kind is Failover) == (spare is Some),
        ensures
            r.0@ == (RunView {
                id: RunId(old(self).spec_next_run() as u128),
                target: node@.id,
                kind: *kind,
                status: RunStatus::Running,
                completed_steps: Seq::empty(),
                started_at: now,
                finished_at: None,
            }),
            r.1.wf(),
            r.1.spec_actions() == plan_actions(*kind),
            r.1.spec_done() == 0,
            !r.1.spec_compensating(),
            r.1.spec_ctx().host@ == node@.host,
            r.1.spec_ctx().version@ == match *kind {
                DeploymentKind::Upgrade { target_version } => target_version@,
                _ => node@.version,
            },
            match spare {
                Some(s) => r.1.spec_ctx().spare_host matches Some(h) && h@ == s@.host,
                None => r.1.spec_ctx().spare_host is None,
            },
            final(self).spec_next_run() == if old(self).spec_next_run() == u64::MAX {
                0
            } else {
                (old(self).spec_next_run() + 1) as u64
            },
            final(self).spec_config() == old(self).spec_config(),
            final(self).spec_limiter() == old(self).spec_limiter(),
            final(self).wf() == old(self).wf(),
    {
        let run_id = self.allocate_run_id();
        let run = DeploymentRun::new(run_id, node.id().clone(), kind.clone(), now);
        let version = match kind {
            DeploymentKind::Upgrade { target_version } => target_version.clone(),
            _ => node.version().clone(),
        };
        let spare_host = match spare {
            Some(s) => Some(s.host().clone()),
            None => None,
        };
        let ctx = SagaContext { host: node.host().clone(), version, spare_host };
        let steps = build_plan(kind);
        (run, SagaExecutor::new(steps, ctx))
    }

    /// Node-state transitions to apply after a successful saga of `kind`.
    pub fn success_path(kind: &DeploymentKind) -> (p: Vec<NodeState>)
        ensures
            p@ == success_path_spec(*kind),
    {
        let p: Vec<NodeState> = match kind {
            DeploymentKind::Provision => vec![
                NodeState::Bootstrapping,
                NodeState::CatchingUp,
                NodeState::Active,
            ],
            DeploymentKind::Upgrade { .. } => vec![
                NodeState::Draining,
                NodeState::CatchingUp,
                NodeState::Active,
            ],
            DeploymentKind::Failover { .. } | DeploymentKind::Decommission => {
                vec![NodeState::Draining, NodeState::Decommissioned]
            },
        };
        proof {
            assert(p@ =~= success_path_spec(*kind));
        }
        p
    }

    /// Node-state transitions to apply after a failed or rolled-back saga.
    pub fn failure_path(kind: &DeploymentKind) -> (p: Vec<NodeState>)
        ensures
            p@ == failure_path_spec(*kind),
    {
        let p: Vec<NodeState> = match kind {
            DeploymentKind::Provision => vec![NodeState::Failed],
            _ => Vec::new(),
        };
        proof {
            assert(p@ =~= failure_path_spec(*kind));
        }
        p
    }

    /// Apply the lifecycle moves that follow a saga of `kind` ending in
    /// `status`, all stamped `now`, and after a successful upgrade record the
    /// target version.
    ///
    /// Returns the moves applied, in order (each to be published as an
    /// event), and an `IllegalTransition` error for the first move the state
    /// machine refuses; moves before it stay applied.
    pub fn settle(node: &mut ValidatorNode, kind: &DeploymentKind, status: RunStatus, now: Timestamp) -> (r: (
        Vec<NodeStateChange>,
        Result<(), DomainError>,
    ))
        ensures
            settle_outcome(old(node)@, final(node)@, r.0@, r.1, *kind, status, now),
    {
        let path = if status == RunStatus::Succeeded {
            Self::success_path(kind)
        } else {
            Self::failure_path(kind)
        };
        let ghost start = node@;
        let mut changes: Vec<NodeStateChange> = Vec::new();
        let mut i: usize = 0;
        proof {
            assert(path@.skip(0) =~= path@);
        }
        while i < path.len()
            invariant
                start == old(node)@,
                path@ == settle_path(*kind, status),
                i <= path@.len(),
                changes@.len() == i,
                walk(start.state, path@) == ((i + walk(node@.state, path@.skip(i as int)).0) as nat,
                walk(node@.state, path@.skip(i as int)).1),
                node@ == (NodeView { state: node@.state, updated_at: node@.updated_at, ..start }),
                i > 0 ==> node@.updated_at == now && node@.state == path@[i - 1],
                i == 0 ==> node@ == start,
                forall|j: int|
                    0 <= j < i ==> (#[trigger] changes@[j]).to == path@[j] && changes@[j].from
                        == if j == 0 {
                        start.state
                    } else {
                        path@[j - 1]
                    },
            decreases path@.len() - i,
        {
            let from = node.state();
            let to = path[i];
            proof {
                let rest = path@.skip(i as int);
                assert(rest[0] == to);
                assert(rest.drop_first() =~= path@.skip(i + 1));
            }
            match node.transition_to(to, now) {
                Ok(()) => {
                    changes.push(NodeStateChange { from, to });
                    i = i + 1;
                },
                Err(e) => {
                    proof {
                        assert(walk(node@.state, path@.skip(i as int)) == (0nat, node@.state));
                        let w = walk(start.state, path@);
                        assert(w.0 == i);
                        assert(w.1 == node@.state);
                        assert(e == (DomainError::IllegalTransition {
                            from: state_text(w.1),
                            to: state_text(path@[w.0 as int]),
                        }));
                        assert(node@.version == start.version);
                    }
                    return (changes, Err(e));
                },
            }
        }
        proof {
            assert(path@.skip(i as int).len() == 0);
        }
        if status == RunStatus::Succeeded {
            match kind {
                DeploymentKind::Upgrade { target_version } => {
                    node.set_version(target_version.clone(), now);
                },
                _ => {},
            }
        }
        (changes, Ok(()))
    }

    /// Classify a health snapshot at `now` against the configured
    /// thresholds.
    pub fn classify_health(&self, snapshot: &HealthSnapshot, now: Timestamp) -> (st: HealthStatus)
        ensures
            st == classify_spec(
                lag_of(snapshot.spec_tip(), snapshot.spec_node()),
                snapshot.spec_skip_rate() as int,
                trunc_div(now.nanos() - snapshot.spec_observed_at().nanos(), 1_000_000_000),
                self.spec_config().lag_warn as nat,
                self.spec_config().lag_crit as nat,
                self.spec_config().skip_crit as int,
                self.spec_config().freshness_secs as int,
            ),
    {
        snapshot.classify(
            now,
            self.cfg.lag_warn,
            self.cfg.lag_crit,
            self.cfg.skip_crit,
            self.cfg.freshness_secs,
        )
    }

    /// The outcome of evaluating the health of node `node_id` at `now`, given
    /// what looking the node up returned: the lookup's error, `NotFound`
    /// naming the id when there is no such node, and otherwise the
    /// classification of `snapshot` with the `HealthEvaluated` event to
    /// publish for it.
    pub fn health_verdict(
        &self,
        node_id: &NodeId,
        found: Result<Option<ValidatorNode>, PortError>,
        snapshot: &HealthSnapshot,
        now: Timestamp,
    ) -> (r: Result<(HealthStatus, OpsEvent), CoreError>)
        ensures
            match found {
                Err(e) => r == Err::<(HealthStatus, OpsEvent), CoreError>(CoreError::Port(e)),
                Ok(None) => r matches Err(CoreError::NotFound(m)) && m@ == node_id@,
                Ok(Some(_)) => r matches Ok((st, ev)) && st == classify_spec(
                    lag_of(snapshot.spec_tip(), snapshot.spec_node()),
                    snapshot.spec_skip_rate() as int,
                    trunc_div(now.nanos() - snapshot.spec_observed_at().nanos(), 1_000_000_000),
                    self.spec_config().lag_warn as nat,
                    self.spec_config().lag_crit as nat,
                    self.spec_config().skip_crit as int,
                    self.spec_config().freshness_secs as int,
                ) && ev == OpsEvent::HealthEvaluated { node: *node_id, status: st, at: now },
            },
    {
        match found {
            Err(e) => Err(CoreError::Port(e)),
            Ok(None) => Err(CoreError::NotFound(node_id.to_string())),
            Ok(Some(_)) => {
                let status = self.classify_health(snapshot, now);
                Ok((status, OpsEvent::HealthEvaluated { node: node_id.clone(), status, at: now }))
            },
        }
    }
}

/// Settling is all-or-nothing: from any state, either every move of the
/// settle path is applied or none is (the first move is the only one the
/// state machine can refuse).
pub proof fn lemma_settle_all_or_nothing(s: NodeState, kind: DeploymentKind, status: RunStatus)
    ensures
        walk(s, settle_path(kind, status)).0 == 0 || walk(s, settle_path(kind, status)).0
            == settle_path(kind, status).len(),
        walk(s, settle_path(kind, status)).0 == 0 ==> walk(s, settle_path(kind, status)).1 == s,
{
    reveal_with_fuel(walk, 4);
    let p = settle_path(kind, status);
    if p.len() > 0 {
        assert(p.drop_first().len() == 0 || p.drop_first().drop_first().len() == 0
            || p.drop_first().drop_first().drop_first().len() == 0);
    }
}

/// Where a deployment leaves a node, by kind and outcome: a provision
/// brings a provisioning node to `Active` on success and to `Failed`
/// otherwise; an upgrade brings an active or delinquent node back to
/// `Active`; a failover or decommission of an active or delinquent node ends
/// `Decommissioned`; an unsuccessful upgrade, failover or decommission leaves
/// the node's state as it was; and a successful upgrade, failover or
/// decommission of a node that is neither active nor delinquent is refused
/// without moving it.
pub proof fn lemma_settle_outcomes(s: NodeState, kind: DeploymentKind, status: RunStatus)
    ensures
        kind is Provision && s == NodeState::Provisioning ==> walk(s, settle_path(kind, status))
            == (settle_path(kind, status).len(), if status == RunStatus::Succeeded {
            NodeState::Active
        } else {
            NodeState::Failed
        }),
        !(kind is Provision) && status == RunStatus::Succeeded && (s == NodeState::Active || s
            == NodeState::Delinquent) ==> walk(s, settle_path(kind, status)) == (
        settle_path(kind, status).len(),
        if kind is Upgrade {
            NodeState::Active
        } else {
            NodeState::Decommissioned
        },
        ),
        !(kind is Provision) && status != RunStatus::Succeeded ==> settle_path(kind, status).len()
            == 0 && walk(s, settle_path(kind, status)) == (0nat, s),
        !(kind is Provision) && status == RunStatus::Succeeded && s != NodeState::Active && s
            != NodeState::Delinquent ==> walk(s, settle_path(kind, status)) == (0nat, s),
{
    reveal_with_fuel(walk, 4);
    let p = settle_path(kind, status);
    if p.len() > 0 {
        assert(p.drop_first().len() == 0 || p.drop_first().drop_first().len() == 0
            || p.drop_first().drop_first().drop_first().len() == 0);
    }
}


/// A walk applies at most the moves of its path.
proof fn lemma_walk_bounded(from: NodeState, path: Seq<NodeState>)
    ensures
        walk(from, path).0 <= path.len(),
    decreases path.len(),
{
    if path.len() > 0 && transition_allowed(from, path[0]) {
        lemma_walk_bounded(path[0], path.drop_first());
    }
}

/// Settling a node publishes at most three moves.
pub proof fn lemma_settle_changes_bounded(
    before: NodeView,
    after: NodeView,
    changes: Seq<NodeStateChange>,
    result: Result<(), DomainError>,
    kind: DeploymentKind,
    status: RunStatus,
    now: Timestamp,
)
    requires
        settle_outcome(before, after, changes, result, kind, status, now),
    ensures
        changes.len() <= 3,
{
    lemma_walk_bounded(before.state, settle_path(kind, status));
}

} // verus!
