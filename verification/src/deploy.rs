//! The deployment use-case as a state machine.
//!
//! A deployment is admitted (rate limit, then bulkhead), looks its node (and,
//! for a failover, the spare) up, opens and stores a run record, announces
//! it, drives the saga effect by effect, settles the node's lifecycle state,
//! stores the node and the finished run, and announces the end. The machine
//! decides every step; the caller performs each [`DeployCommand`] (a store
//! access, a publication, an agent call) and answers with a [`DeployReply`].

use vstd::prelude::*;

use crate::bulkhead::BulkheadGuard;
use crate::core_error::{CoreError, PortError};
use crate::engine::{lemma_settle_changes_bounded, settle_outcome, NodeStateChange, OpsEngine};
use crate::error::DomainError;
use crate::event::OpsEvent;
use crate::ids::{NodeId, RunId};
use crate::node::{NodeView, ValidatorNode};
use crate::ops::{DeploymentKind, DeploymentRun, RunStatus, RunView};
use crate::ratelimit::{admits, after_request};
use crate::saga::{
    all_true, compensate_effect, is_execute_effect, lemma_saga_bounds, lemma_saga_progress,
    outcome_recorded, plan_actions, saga_budget, SagaCommand, SagaExecutor, SagaNotice, StepEffect,
};
use crate::time::Timestamp;

verus! {

/// Which answer a deployment waits for.
#[derive(Debug, Clone, Copy, PartialEq, Eq, Structural)]
pub enum DeployStage {
    /// The lookup of the target node.
    AwaitNode,
    /// The lookup of the failover spare.
    AwaitSpare,
    /// The storing of the opened run record.
    AwaitRunSaved,
    /// The publication of an event, after which the saga moves on.
    AwaitSagaPublished,
    /// The outcome of a saga effect.
    AwaitPerformed,
    /// The publication of a node-state change.
    AwaitChangePublished,
    /// The storing of the settled node.
    AwaitNodeSaved,
    /// The storing of the finished run record.
    AwaitRunFinished,
    /// The publication of the run-finished event.
    AwaitFinishPublished,
    /// Nothing: the deployment is over.
    Done,
}

/// What the caller must do next.
#[derive(Debug)]
pub enum DeployCommand {
    /// Look the node with this id up in the store.
    FetchNode(NodeId),
    /// Store (upsert) this run record.
    SaveRun(DeploymentRun),
    /// Store (upsert) this node.
    SaveNode(ValidatorNode),
    /// Publish this event.
    Publish(OpsEvent),
    /// Perform this saga effect; `compensation` tells an undo from a forward step.
    Perform { effect: StepEffect, compensation: bool },
    /// The deployment is over with this result.
    Finish(Result<DeploymentRun, CoreError>),
}

/// What came of the last command.
#[derive(Debug)]
pub enum DeployReply {
    /// The answer to a lookup.
    Fetched(Result<Option<ValidatorNode>, PortError>),
    /// The answer to a store.
    Saved(Result<(), PortError>),
    /// The event was published.
    Published,
    /// Whether the effect succeeded.
    Performed(bool),
}

/// Whether `reply` answers what a deployment at `stage` waits for.
pub open spec fn reply_fits(stage: DeployStage, reply: DeployReply) -> bool {
    match stage {
        DeployStage::AwaitNode | DeployStage::AwaitSpare => reply is Fetched,
        DeployStage::AwaitRunSaved | DeployStage::AwaitNodeSaved | DeployStage::AwaitRunFinished => {
            reply is Saved
        },
        DeployStage::AwaitSagaPublished
        | DeployStage::AwaitChangePublished
        | DeployStage::AwaitFinishPublished => reply is Published,
        DeployStage::AwaitPerformed => reply is Performed,
        DeployStage::Done => false,
    }
}

/// The abstract state of a deployment.
pub struct DeployView {
    pub stage: DeployStage,
    /// The id of the target node.
    pub node_id: Seq<char>,
    pub kind: DeploymentKind,
    /// The target node, once looked up (settled once the saga is over).
    pub node: Option<NodeView>,
    /// The run record, once opened.
    pub run: Option<RunView>,
    /// The saga, once opened.
    pub saga: Option<SagaExecutor>,
    /// The saga's terminal status, once over.
    pub status: RunStatus,
    /// The node-state changes of the settle.
    pub changes: Seq<NodeStateChange>,
    /// How many of `changes` were handed out for publication.
    pub published: nat,
    /// Whether the settle completed, or the move it was refused.
    pub settled: Result<(), DomainError>,
}

pub open spec fn node_view_of(n: Option<ValidatorNode>) -> Option<NodeView> {
    match n {
        Some(x) => Some(x@),
        None => None,
    }
}

pub open spec fn run_view_of(r: Option<DeploymentRun>) -> Option<RunView> {
    match r {
        Some(x) => Some(x@),
        None => None,
    }
}

/// The run id that follows `id` (wrapping at `u64::MAX`).
pub open spec fn next_run_id(id: u64) -> u64 {
    if id == u64::MAX {
        0
    } else {
        (id + 1) as u64
    }
}

/// The effect a saga asks for next.
pub open spec fn next_effect(sg: SagaExecutor, effect: StepEffect) -> bool {
    if !sg.spec_compensating() {
        is_execute_effect(sg.spec_actions()[sg.spec_done() as int], sg.spec_ctx(), effect)
    } else {
        effect == compensate_effect(sg.spec_actions()[sg.spec_pending() - 1], sg.spec_ctx())
    }
}

/// The terminal status of a finished saga: `Succeeded` when no step failed,
/// `RolledBack` when every compensation succeeded, `Failed` otherwise.
pub open spec fn saga_status(sg: SagaExecutor) -> RunStatus {
    if !sg.spec_compensating() {
        RunStatus::Succeeded
    } else if all_true(sg.spec_results()) {
        RunStatus::RolledBack
    } else {
        RunStatus::Failed
    }
}

/// Opening the run and the saga for `node` (and the failover `spare`) with
/// run id `id` at `now`: the run is stored first.
pub open spec fn opened(
    pre: DeployView,
    node: NodeView,
    spare: Option<NodeView>,
    id: u64,
    post: DeployView,
    c: DeployCommand,
    now: Timestamp,
) -> bool {
    let run = RunView {
        id: RunId(id as u128),
        target: node.id,
        kind: pre.kind,
        status: RunStatus::Running,
        completed_steps: Seq::empty(),
        started_at: now,
        finished_at: None,
    };
    &&& post.stage == DeployStage::AwaitRunSaved
    &&& post.node == Some(node)
    &&& post.run == Some(run)
    &&& post.node_id == pre.node_id
    &&& post.kind == pre.kind
    &&& post.status == pre.status
    &&& post.changes == pre.changes
    &&& post.published == pre.published
    &&& post.settled == pre.settled
    &&& post.saga matches Some(sg) && sg.wf() && sg.spec_actions() == plan_actions(pre.kind)
        && sg.spec_done() == 0 && !sg.spec_compensating() && sg.spec_ctx().host@ == node.host
        && sg.spec_ctx().version@ == match pre.kind {
        DeploymentKind::Upgrade { target_version } => target_version@,
        _ => node.version,
    } && match spare {
        Some(s) => sg.spec_ctx().spare_host matches Some(h) && h@ == s.host,
        None => sg.spec_ctx().spare_host is None,
    }
    &&& c matches DeployCommand::SaveRun(r) && r@ == run
}

/// After the settle: publish the next node-state change, or end with the
/// refused move, or store the node.
pub open spec fn change_or_save(
    v: DeployView,
    post: DeployView,
    c: DeployCommand,
    now: Timestamp,
) -> bool {
    if v.published < v.changes.len() {
        let ch = v.changes[v.published as int];
        &&& post == DeployView {
            stage: DeployStage::AwaitChangePublished,
            published: v.published + 1,
            ..v
        }
        &&& c matches DeployCommand::Publish(OpsEvent::NodeStateChanged { node, from, to, at })
            && node@ == v.node->0.id && from == ch.from && to == ch.to && at == now
    } else if v.settled is Err {
        &&& post == DeployView { stage: DeployStage::Done, ..v }
        &&& c == DeployCommand::Finish(
            Err::<DeploymentRun, CoreError>(CoreError::Domain(v.settled->Err_0)),
        )
    } else {
        &&& post == DeployView { stage: DeployStage::AwaitNodeSaved, ..v }
        &&& c matches DeployCommand::SaveNode(n) && n@ == v.node->0
    }
}

/// Let the saga move: perform its next effect, or, once it is over, settle
/// the node at `now` with the saga's terminal status.
pub open spec fn drive(pre: DeployView, post: DeployView, c: DeployCommand, now: Timestamp) -> bool {
    let sg = pre.saga->0;
    if !sg.spec_finished() {
        &&& post == DeployView { stage: DeployStage::AwaitPerformed, ..pre }
        &&& c matches DeployCommand::Perform { effect, compensation } && compensation
            == sg.spec_compensating() && next_effect(sg, effect)
    } else {
        let status = saga_status(sg);
        let settled = DeployView {
            node: post.node,
            status,
            changes: post.changes,
            published: 0,
            settled: post.settled,
            ..pre
        };
        &&& post.node is Some
        &&& settle_outcome(
            pre.node->0,
            post.node->0,
            post.changes,
            post.settled,
            pre.kind,
            status,
            now,
        )
        &&& change_or_save(settled, post, c, now)
    }
}

/// One step of a deployment: from `pre`, with the engine's next run id
/// `next_run`, the reply `reply` received at `now` leads to `post`, the
/// command `c`, and the engine's next run id `next_run_post`.
pub open spec fn deploy_step(
    pre: DeployView,
    reply: DeployReply,
    next_run: u64,
    now: Timestamp,
    post: DeployView,
    c: DeployCommand,
    next_run_post: u64,
) -> bool {
    let done = DeployView { stage: DeployStage::Done, ..pre };
    match reply {
        DeployReply::Fetched(r) => {
            let looked_up = if pre.stage == DeployStage::AwaitNode {
                pre.node_id
            } else {
                pre.kind->spare@
            };
            match r {
                Err(e) => {
                    &&& post == done
                    &&& c == DeployCommand::Finish(Err::<DeploymentRun, CoreError>(CoreError::Port(e)))
                    &&& next_run_post == next_run
                },
                Ok(None) => {
                    &&& post == done
                    &&& c matches DeployCommand::Finish(Err(CoreError::NotFound(m))) && m@
                        == looked_up
                    &&& next_run_post == next_run
                },
                Ok(Some(n)) => if pre.stage == DeployStage::AwaitNode && pre.kind is Failover {
                    &&& post == DeployView { stage: DeployStage::AwaitSpare, node: Some(n@), ..pre }
                    &&& c matches DeployCommand::FetchNode(id) && id@ == pre.kind->spare@
                    &&& next_run_post == next_run
                } else if pre.stage == DeployStage::AwaitNode {
                    &&& opened(pre, n@, None, next_run, post, c, now)
                    &&& next_run_post == next_run_id(next_run)
                } else {
                    &&& opened(pre, pre.node->0, Some(n@), next_run, post, c, now)
                    &&& next_run_post == next_run_id(next_run)
                },
            }
        },
        DeployReply::Saved(Err(e)) => {
            &&& post == done
            &&& c == DeployCommand::Finish(Err::<DeploymentRun, CoreError>(CoreError::Port(e)))
            &&& next_run_post == next_run
        },
        DeployReply::Saved(Ok(())) => {
            &&& next_run_post == next_run
            &&& if pre.stage == DeployStage::AwaitRunSaved {
                &&& post == DeployView { stage: DeployStage::AwaitSagaPublished, ..pre }
                &&& c matches DeployCommand::Publish(OpsEvent::RunStarted { run, node, kind, at })
                    && run == pre.run->0.id && node@ == pre.node->0.id && kind == pre.kind && at
                    == now
            } else if pre.stage == DeployStage::AwaitNodeSaved {
                let finished = RunView { status: pre.status, finished_at: Some(now), ..pre.run->0 };
                &&& post == DeployView {
                    stage: DeployStage::AwaitRunFinished,
                    run: Some(finished),
                    ..pre
                }
                &&& c matches DeployCommand::SaveRun(r) && r@ == finished
            } else {
                &&& post == DeployView { stage: DeployStage::AwaitFinishPublished, ..pre }
                &&& c == DeployCommand::Publish(
                    OpsEvent::RunFinished { run: pre.run->0.id, status: pre.status, at: now },
                )
            }
        },
        DeployReply::Published => {
            &&& next_run_post == next_run
            &&& if pre.stage == DeployStage::AwaitSagaPublished {
                drive(pre, post, c, now)
            } else if pre.stage == DeployStage::AwaitChangePublished {
                change_or_save(pre, post, c, now)
            } else {
                &&& post == done
                &&& c matches DeployCommand::Finish(Ok(r)) && r@ == pre.run->0
            }
        },
        DeployReply::Performed(ok) => {
            let mid = DeployView { saga: post.saga, run: post.run, ..pre };
            &&& next_run_post == next_run
            &&& post.saga is Some
            &&& post.run is Some
            &&& exists|notice: Option<SagaNotice>|
                {
                    &&& outcome_recorded(
                        pre.saga->0,
                        post.saga->0,
                        ok,
                        pre.run->0,
                        post.run->0,
                        notice,
                    )
                    &&& match notice {
                        Some(SagaNotice::StepCompleted(a)) => {
                            &&& post == DeployView { stage: DeployStage::AwaitSagaPublished, ..mid }
                            &&& c == DeployCommand::Publish(
                                OpsEvent::StepCompleted { run: pre.run->0.id, action: a, at: now },
                            )
                        },
                        Some(SagaNotice::StepCompensated(a)) => {
                            &&& post == DeployView { stage: DeployStage::AwaitSagaPublished, ..mid }
                            &&& c == DeployCommand::Publish(
                                OpsEvent::StepCompensated { run: pre.run->0.id, action: a, at: now },
                            )
                        },
                        None => drive(mid, post, c, now),
                    }
                }
        },
    }
}

/// One deployment in progress.
pub struct Deployment {
    node_id: NodeId,
    kind: DeploymentKind,
    stage: DeployStage,
    node: Option<ValidatorNode>,
    run: Option<DeploymentRun>,
    saga: Option<SagaExecutor>,
    status: RunStatus,
    changes: Vec<NodeStateChange>,
    published: usize,
    settle_error: Option<DomainError>,
}

impl View for Deployment {
    type V = DeployView;

    closed spec fn view(&self) -> DeployView {
        DeployView {
            stage: self.stage,
            node_id: self.node_id@,
            kind: self.kind,
            node: node_view_of(self.node),
            run: run_view_of(self.run),
            saga: self.saga,
            status: self.status,
            changes: self.changes@,
            published: self.published as nat,
            settled: match self.settle_error {
                Some(e) => Err(e),
                None => Ok(()),
            },
        }
    }
}

impl Deployment {
    /// The node, the run and the saga are there, and the saga is consistent.
    closed spec fn running(&self) -> bool {
        &&& self.node is Some
        &&& self.run is Some
        &&& self.saga matches Some(sg) && sg.wf() && sg.spec_actions() == plan_actions(self.kind)
        &&& self.published <= self.changes@.len()
    }

    /// The deployment's internal consistency at each stage.
    pub closed spec fn wf(&self) -> bool {
        &&& self.published <= self.changes@.len()
        &&& self.changes@.len() <= 3
        &&& match self.stage {
            DeployStage::AwaitNode => self.node is None && self.run is None && self.saga is None,
            DeployStage::AwaitSpare => self.node is Some && self.kind is Failover && self.run is None
                && self.saga is None,
            DeployStage::Done => true,
            DeployStage::AwaitPerformed => self.running() && !self.saga->0.spec_finished(),
            _ => self.running(),
        }
    }

    /// Admit a deployment of `kind` to the node `node_id`: one token from the
    /// rate limiter, then a bulkhead slot (held until the guard is dropped),
    /// either exhausted refusing it as `Throttled`. An admitted deployment
    /// starts by looking its node up.
    pub fn begin(engine: &mut OpsEngine, node_id: NodeId, kind: DeploymentKind) -> (r: Result<
        (Deployment, DeployCommand, BulkheadGuard),
        CoreError,
    >)
        requires
            old(engine).wf(),
        ensures
            final(engine).wf(),
            final(engine).spec_config() == old(engine).spec_config(),
            final(engine).spec_next_run() == old(engine).spec_next_run(),
            exists|now: u64|
                {
                    &&& final(engine).spec_limiter() == after_request(
                        old(engine).spec_limiter(),
                        now,
                        1,
                    )
                    &&& !admits(old(engine).spec_limiter(), now, 1) ==> r is Err
                },
            r is Err ==> r->Err_0 == CoreError::Throttled,
            r matches Ok(t) ==> {
                &&& t.0.wf()
                &&& t.0@ == (DeployView {
                    stage: DeployStage::AwaitNode,
                    node_id: node_id@,
                    kind,
                    node: None,
                    run: None,
                    saga: None,
                    status: RunStatus::Running,
                    changes: Seq::empty(),
                    published: 0,
                    settled: Ok(()),
                })
                &&& t.1 matches DeployCommand::FetchNode(id) && id@ == node_id@
            },
    {
        let guard = match engine.acquire_admission() {
            Ok(g) => g,
            Err(e) => {
                return Err(e);
            },
        };
        let first = DeployCommand::FetchNode(node_id.clone());
        let d = Deployment {
            node_id,
            kind,
            stage: DeployStage::AwaitNode,
            node: None,
            run: None,
            saga: None,
            status: RunStatus::Running,
            changes: Vec::new(),
            published: 0,
            settle_error: None,
        };
        Ok((d, first, guard))
    }

    /// Which answer the deployment waits for.
    pub fn stage(&self) -> (s: DeployStage)
        ensures
            s == self@.stage,
    {
        self.stage
    }

    /// Whether `reply` answers what the deployment waits for.
    pub fn fits(&self, reply: &DeployReply) -> (b: bool)
        ensures
            b == reply_fits(self@.stage, *reply),
    {
        match self.stage {
            DeployStage::AwaitNode | DeployStage::AwaitSpare => match reply {
                DeployReply::Fetched(_) => true,
                _ => false,
            },
            DeployStage::AwaitRunSaved
            | DeployStage::AwaitNodeSaved
            | DeployStage::AwaitRunFinished => match reply {
                DeployReply::Saved(_) => true,
                _ => false,
            },
            DeployStage::AwaitSagaPublished
            | DeployStage::AwaitChangePublished
            | DeployStage::AwaitFinishPublished => match reply {
                DeployReply::Published => true,
                _ => false,
            },
            DeployStage::AwaitPerformed => match reply {
                DeployReply::Performed(_) => true,
                _ => false,
            },
            DeployStage::Done => false,
        }
    }

    fn finish_with(&mut self, e: CoreError) -> (c: DeployCommand)
        requires
            old(self).published <= old(self).changes@.len(),
            old(self).changes@.len() <= 3,
        ensures
            final(self)@ == (DeployView { stage: DeployStage::Done, ..old(self)@ }),
            final(self).wf(),
            c == DeployCommand::Finish(Err::<DeploymentRun, CoreError>(e)),
    {
        self.stage = DeployStage::Done;
        DeployCommand::Finish(Err(e))
    }

    fn open(
        &mut self,
        engine: &mut OpsEngine,
        node: ValidatorNode,
        spare: Option<ValidatorNode>,
        now: Timestamp,
    ) -> (c: DeployCommand)
        requires
            (old(self).kind is Failover) == (spare is Some),
            old(self).published <= old(self).changes@.len(),
            old(self).changes@.len() <= 3,
        ensures
            opened(
                old(self)@,
                node@,
                node_view_of(spare),
                old(engine).spec_next_run(),
                final(self)@,
                c,
                now,
            ),
            final(self).wf(),
            final(engine).spec_next_run() == next_run_id(old(engine).spec_next_run()),
            final(engine).spec_config() == old(engine).spec_config(),
            final(engine).spec_limiter() == old(engine).spec_limiter(),
            final(engine).wf() == old(engine).wf(),
    {
        let (run, saga) = engine.prepare(&node, &self.kind, spare.as_ref(), now);
        let saved = run.clone();
        self.node = Some(node);
        self.run = Some(run);
        self.saga = Some(saga);
        self.stage = DeployStage::AwaitRunSaved;
        DeployCommand::SaveRun(saved)
    }

    fn change_or_save(&mut self, now: Timestamp) -> (c: DeployCommand)
        requires
            old(self).running(),
            old(self).changes@.len() <= 3,
        ensures
            change_or_save(old(self)@, final(self)@, c, now),
            final(self).wf(),
    {
        if self.published < self.changes.len() {
            let ch = self.changes[self.published];
            self.published = self.published + 1;
            self.stage = DeployStage::AwaitChangePublished;
            let node_id = self.node.as_ref().unwrap().id().clone();
            DeployCommand::Publish(
                OpsEvent::NodeStateChanged { node: node_id, from: ch.from, to: ch.to, at: now },
            )
        } else {
            match &self.settle_error {
                Some(e) => {
                    let err = e.clone();
                    self.stage = DeployStage::Done;
                    DeployCommand::Finish(Err(CoreError::Domain(err)))
                },
                None => {
                    let node = self.node.as_ref().unwrap().clone();
                    self.stage = DeployStage::AwaitNodeSaved;
                    DeployCommand::SaveNode(node)
                },
            }
        }
    }

    fn drive(&mut self, now: Timestamp) -> (c: DeployCommand)
        requires
            old(self).running(),
            old(self).changes@.len() <= 3,
        ensures
            drive(old(self)@, final(self)@, c, now),
            final(self).wf(),
    {
        let cmd = self.saga.as_ref().unwrap().next_command();
        match cmd {
            SagaCommand::Execute { effect, .. } => {
                self.stage = DeployStage::AwaitPerformed;
                DeployCommand::Perform { effect, compensation: false }
            },
            SagaCommand::Compensate { effect, .. } => {
                self.stage = DeployStage::AwaitPerformed;
                DeployCommand::Perform { effect, compensation: true }
            },
            SagaCommand::Finish(status) => {
                let mut node = self.node.take().unwrap();
                let ghost before = node@;
                let (changes, res) = OpsEngine::settle(&mut node, &self.kind, status, now);
                proof {
                    lemma_settle_changes_bounded(before, node@, changes@, res, self.kind, status, now);
                }
                self.node = Some(node);
                self.status = status;
                self.changes = changes;
                self.published = 0;
                self.settle_error = match res {
                    Ok(()) => None,
                    Err(e) => Some(e),
                };
                self.change_or_save(now)
            },
        }
    }

    /// Carry the deployment on with `reply`, the answer to the last command,
    /// received at `now`; the next command is returned.
    pub fn advance(&mut self, engine: &mut OpsEngine, reply: DeployReply, now: Timestamp) -> (c:
        DeployCommand)
        requires
            old(self).wf(),
            reply_fits(old(self)@.stage, reply),
        ensures
            final(self).wf(),
            deploy_step(
                old(self)@,
                reply,
                old(engine).spec_next_run(),
                now,
                final(self)@,
                c,
                final(engine).spec_next_run(),
            ),
            final(engine).spec_config() == old(engine).spec_config(),
            final(engine).spec_limiter() == old(engine).spec_limiter(),
            final(engine).wf() == old(engine).wf(),
    {
        match reply {
            DeployReply::Fetched(Err(e)) => self.finish_with(CoreError::Port(e)),
            DeployReply::Fetched(Ok(None)) => {
                let missing = if self.stage == DeployStage::AwaitNode {
                    self.node_id.to_string()
                } else {
                    match &self.kind {
                        DeploymentKind::Failover { spare } => spare.to_string(),
                        _ => self.node_id.to_string(),
                    }
                };
                self.finish_with(CoreError::NotFound(missing))
            },
            DeployReply::Fetched(Ok(Some(n))) => {
                if self.stage == DeployStage::AwaitNode {
                    match &self.kind {
                        DeploymentKind::Failover { spare } => {
                            let spare_id = spare.clone();
                            self.node = Some(n);
                            self.stage = DeployStage::AwaitSpare;
                            DeployCommand::FetchNode(spare_id)
                        },
                        _ => self.open(engine, n, None, now),
                    }
                } else {
                    let node = self.node.take().unwrap();
                    self.open(engine, node, Some(n), now)
                }
            },
            DeployReply::Saved(Err(e)) => self.finish_with(CoreError::Port(e)),
            DeployReply::Saved(Ok(())) => {
                if self.stage == DeployStage::AwaitRunSaved {
                    let run_id = self.run.as_ref().unwrap().id();
                    let node_id = self.node.as_ref().unwrap().id().clone();
                    self.stage = DeployStage::AwaitSagaPublished;
                    DeployCommand::Publish(
                        OpsEvent::RunStarted {
                            run: run_id,
                            node: node_id,
                            kind: self.kind.clone(),
                            at: now,
                        },
                    )
                } else if self.stage == DeployStage::AwaitNodeSaved {
                    let mut run = self.run.take().unwrap();
                    run.finish(self.status, now);
                    let saved = run.clone();
                    self.run = Some(run);
                    self.stage = DeployStage::AwaitRunFinished;
                    DeployCommand::SaveRun(saved)
                } else {
                    let run_id = self.run.as_ref().unwrap().id();
                    self.stage = DeployStage::AwaitFinishPublished;
                    DeployCommand::Publish(
                        OpsEvent::RunFinished { run: run_id, status: self.status, at: now },
                    )
                }
            },
            DeployReply::Published => {
                if self.stage == DeployStage::AwaitSagaPublished {
                    self.drive(now)
                } else if self.stage == DeployStage::AwaitChangePublished {
                    self.change_or_save(now)
                } else {
                    let run = self.run.as_ref().unwrap().clone();
                    self.stage = DeployStage::Done;
                    DeployCommand::Finish(Ok(run))
                }
            },
            DeployReply::Performed(ok) => {
                let ghost pre = self@;
                let mut saga = self.saga.take().unwrap();
                let mut run = self.run.take().unwrap();
                let notice = saga.record_outcome(ok, &mut run);
                let ghost recorded = notice;
                let run_id = run.id();
                self.saga = Some(saga);
                self.run = Some(run);
                let c = match notice {
                    Some(SagaNotice::StepCompleted(a)) => {
                        self.stage = DeployStage::AwaitSagaPublished;
                        DeployCommand::Publish(
                            OpsEvent::StepCompleted { run: run_id, action: a, at: now },
                        )
                    },
                    Some(SagaNotice::StepCompensated(a)) => {
                        self.stage = DeployStage::AwaitSagaPublished;
                        DeployCommand::Publish(
                            OpsEvent::StepCompensated { run: run_id, action: a, at: now },
                        )
                    },
                    None => self.drive(now),
                };
                proof {
                    assert(outcome_recorded(
                        pre.saga->0,
                        self@.saga->0,
                        ok,
                        pre.run->0,
                        self@.run->0,
                        recorded,
                    ));
                }
                c
            },
        }
    }
}


/// A bound on the replies a deployment still needs: zero exactly when it is
/// over.
pub open spec fn deploy_measure(v: DeployView) -> int {
    match v.stage {
        DeployStage::Done => 0,
        DeployStage::AwaitFinishPublished => 1,
        DeployStage::AwaitRunFinished => 2,
        DeployStage::AwaitNodeSaved => 3,
        DeployStage::AwaitChangePublished => 4 + (v.changes.len() - v.published),
        DeployStage::AwaitPerformed => 7 + 2 * saga_budget(v.saga->0),
        DeployStage::AwaitSagaPublished => 8 + 2 * saga_budget(v.saga->0),
        DeployStage::AwaitRunSaved => 9 + 2 * saga_budget(v.saga->0),
        DeployStage::AwaitSpare => 28,
        DeployStage::AwaitNode => 29,
    }
}

/// The bound of a consistent deployment lies between zero and 29, and is
/// zero exactly when the deployment is over.
pub proof fn lemma_deploy_measure_range(d: Deployment)
    requires
        d.wf(),
    ensures
        0 <= deploy_measure(d@) <= 29,
        deploy_measure(d@) == 0 <==> d@.stage == DeployStage::Done,
{
    if d.running() {
        lemma_saga_bounds(d.saga->0);
    }
}

/// Every deployment ends: each reply it accepts strictly lowers its bound,
/// so a deployment is over after at most 29 replies.
pub proof fn lemma_deployment_progress(
    before: Deployment,
    after: Deployment,
    reply: DeployReply,
    next_run: u64,
    now: Timestamp,
    c: DeployCommand,
    next_run_post: u64,
)
    requires
        before.wf(),
        after.wf(),
        reply_fits(before@.stage, reply),
        deploy_step(before@, reply, next_run, now, after@, c, next_run_post),
    ensures
        deploy_measure(after@) < deploy_measure(before@),
{
    lemma_deploy_measure_range(before);
    lemma_deploy_measure_range(after);
    if before.running() {
        lemma_saga_bounds(before.saga->0);
    }
    match reply {
        DeployReply::Performed(ok) => {
            let pre = before@;
            let post = after@;
            let mid = DeployView { saga: post.saga, run: post.run, ..pre };
            let notice = choose|notice: Option<SagaNotice>|
                {
                    &&& outcome_recorded(
                        pre.saga->0,
                        post.saga->0,
                        ok,
                        pre.run->0,
                        post.run->0,
                        notice,
                    )
                    &&& match notice {
                        Some(SagaNotice::StepCompleted(a)) => {
                            &&& post == DeployView { stage: DeployStage::AwaitSagaPublished, ..mid }
                            &&& c == DeployCommand::Publish(
                                OpsEvent::StepCompleted { run: pre.run->0.id, action: a, at: now },
                            )
                        },
                        Some(SagaNotice::StepCompensated(a)) => {
                            &&& post == DeployView { stage: DeployStage::AwaitSagaPublished, ..mid }
                            &&& c == DeployCommand::Publish(
                                OpsEvent::StepCompensated { run: pre.run->0.id, action: a, at: now },
                            )
                        },
                        None => drive(mid, post, c, now),
                    }
                };
            lemma_saga_progress(pre.saga->0, post.saga->0, ok, pre.run->0, post.run->0, notice);
        },
        _ => {},
    }
}

} // verus!
