use validatorforge::config::OpsConfig;
use validatorforge::core_error::{CoreError, PortError};
use validatorforge::deploy::{DeployCommand, DeployReply, DeployStage, Deployment};
use validatorforge::engine::OpsEngine;
use validatorforge::error::DomainError;
use validatorforge::event::OpsEvent;
use validatorforge::ids::{ClusterName, HostAddr, NodeId, RunId, ValidatorVersion};
use validatorforge::node::{Cluster, NodeRole, NodeState, ValidatorNode};
use validatorforge::ops::{DeploymentKind, DeploymentRun, OpsActionKind, RunStatus};
use validatorforge::repo::InMemoryNodeRepository;
use validatorforge::saga::StepEffect;
use validatorforge::sim::SimNodeAgent;
use validatorforge::time::Timestamp;

fn t(secs: i64) -> Timestamp {
    Timestamp::from_unix_secs(1_700_000_000 + secs)
}

fn node(id: &str, host: &str) -> ValidatorNode {
    ValidatorNode::new(
        NodeId::new(id).unwrap(),
        ClusterName::new("eu-fiber").unwrap(),
        Cluster::Testnet,
        HostAddr::new(host).unwrap(),
        NodeRole::Voting,
        ValidatorVersion::new("2.0.14").unwrap(),
        t(0),
    )
}

fn perform(agent: &mut SimNodeAgent, effect: &StepEffect) -> bool {
    match effect {
        StepEffect::Succeed => true,
        StepEffect::Fail(_) => false,
        StepEffect::Call(call) => match call.action() {
            OpsActionKind::AwaitCatchup => agent.await_catchup().is_ok(),
            action => agent.perform(action).is_ok(),
        },
    }
}

/// Run one deployment against an in-memory store and a simulated agent; the
/// result and the events published.
fn deploy(
    engine: &mut OpsEngine,
    repo: &mut InMemoryNodeRepository,
    agent: &mut SimNodeAgent,
    node_id: &str,
    kind: DeploymentKind,
) -> (Result<DeploymentRun, CoreError>, Vec<OpsEvent>) {
    let (mut d, mut cmd, _slot) = match Deployment::begin(engine, NodeId::new(node_id).unwrap(), kind) {
        Ok(started) => started,
        Err(e) => return (Err(e), Vec::new()),
    };
    let mut events = Vec::new();
    let mut tick = 0;
    loop {
        let reply = match cmd {
            DeployCommand::FetchNode(id) => DeployReply::Fetched(Ok(repo.get_node(&id))),
            DeployCommand::SaveRun(r) => {
                repo.save_run(&r);
                DeployReply::Saved(Ok(()))
            }
            DeployCommand::SaveNode(n) => {
                repo.save_node(&n);
                DeployReply::Saved(Ok(()))
            }
            DeployCommand::Publish(e) => {
                events.push(e);
                DeployReply::Published
            }
            DeployCommand::Perform { effect, .. } => DeployReply::Performed(perform(agent, &effect)),
            DeployCommand::Finish(r) => return (r, events),
        };
        assert!(d.fits(&reply));
        tick += 1;
        cmd = d.advance(engine, reply, t(tick));
    }
}

fn kinds(events: &[OpsEvent]) -> Vec<&'static str> {
    events.iter().map(|e| e.kind()).collect()
}

#[test]
fn provision_deployment_succeeds_and_activates() {
    let mut engine = OpsEngine::new(OpsConfig::default());
    let mut repo = InMemoryNodeRepository::new();
    let mut agent = SimNodeAgent::new();
    repo.save_node(&node("eu-val-01", "val01.internal"));
    let (result, events) = deploy(&mut engine, &mut repo, &mut agent, "eu-val-01", DeploymentKind::Provision);
    let run = result.unwrap();
    assert_eq!(run.id(), RunId(1));
    assert_eq!(run.status(), RunStatus::Succeeded);
    assert_eq!(run.completed_steps().len(), 4);
    assert!(run.finished_at().is_some());
    assert_eq!(
        kinds(&events),
        vec![
            "run_started",
            "step_completed",
            "step_completed",
            "step_completed",
            "step_completed",
            "node_state_changed",
            "node_state_changed",
            "node_state_changed",
            "run_finished",
        ]
    );
    let stored = repo.get_node(&NodeId::new("eu-val-01").unwrap()).unwrap();
    assert_eq!(stored.state(), NodeState::Active);
    assert_eq!(repo.get_run(RunId(1)).unwrap().status(), RunStatus::Succeeded);
}

#[test]
fn unknown_node_is_not_found() {
    let mut engine = OpsEngine::new(OpsConfig::default());
    let mut repo = InMemoryNodeRepository::new();
    let mut agent = SimNodeAgent::new();
    let (result, events) = deploy(&mut engine, &mut repo, &mut agent, "ghost", DeploymentKind::Provision);
    assert_eq!(result.unwrap_err(), CoreError::NotFound("ghost".into()));
    assert!(events.is_empty());
    assert!(repo.list_runs(10).is_empty());
    // No run id was spent.
    repo.save_node(&node("n1", "h1"));
    let (result, _) = deploy(&mut engine, &mut repo, &mut agent, "n1", DeploymentKind::Provision);
    assert_eq!(result.unwrap().id(), RunId(1));
}

#[test]
fn failover_needs_a_known_spare() {
    let mut engine = OpsEngine::new(OpsConfig::default());
    let mut repo = InMemoryNodeRepository::new();
    let mut agent = SimNodeAgent::new();
    repo.save_node(&node("eu-val-01", "val01.internal"));
    let kind = DeploymentKind::Failover { spare: NodeId::new("spare-01").unwrap() };
    let (result, events) = deploy(&mut engine, &mut repo, &mut agent, "eu-val-01", kind);
    assert_eq!(result.unwrap_err(), CoreError::NotFound("spare-01".into()));
    assert!(events.is_empty());
    assert!(agent.calls().is_empty());
}

#[test]
fn provision_failure_marks_node_failed() {
    let mut engine = OpsEngine::new(OpsConfig::default());
    let mut repo = InMemoryNodeRepository::new();
    let mut agent = SimNodeAgent::failing_on(vec![OpsActionKind::StartValidator]);
    repo.save_node(&node("eu-val-01", "val01.internal"));
    let (result, events) = deploy(&mut engine, &mut repo, &mut agent, "eu-val-01", DeploymentKind::Provision);
    let run = result.unwrap();
    assert_eq!(run.status(), RunStatus::RolledBack);
    assert_eq!(
        kinds(&events),
        vec![
            "run_started",
            "step_completed",
            "step_completed",
            "step_compensated",
            "step_compensated",
            "node_state_changed",
            "run_finished",
        ]
    );
    let stored = repo.get_node(&NodeId::new("eu-val-01").unwrap()).unwrap();
    assert_eq!(stored.state(), NodeState::Failed);
}

#[test]
fn refused_settle_ends_with_the_illegal_transition() {
    let mut engine = OpsEngine::new(OpsConfig::default());
    let mut repo = InMemoryNodeRepository::new();
    let mut agent = SimNodeAgent::new();
    repo.save_node(&node("eu-val-01", "val01.internal"));
    let (result, events) =
        deploy(&mut engine, &mut repo, &mut agent, "eu-val-01", DeploymentKind::Decommission);
    assert_eq!(
        result.unwrap_err(),
        CoreError::Domain(DomainError::IllegalTransition { from: "provisioning", to: "draining" })
    );
    assert_eq!(kinds(&events), vec!["run_started", "step_completed", "step_completed"]);
    // The node is not stored again and the run stays open.
    assert_eq!(
        repo.get_node(&NodeId::new("eu-val-01").unwrap()).unwrap().state(),
        NodeState::Provisioning
    );
    assert_eq!(repo.get_run(RunId(1)).unwrap().status(), RunStatus::Running);
}

#[test]
fn upgrade_records_version_and_announces_moves() {
    let mut engine = OpsEngine::new(OpsConfig::default());
    let mut repo = InMemoryNodeRepository::new();
    let mut agent = SimNodeAgent::new();
    let mut n = node("eu-val-01", "val01.internal");
    for s in [NodeState::Bootstrapping, NodeState::CatchingUp, NodeState::Active] {
        n.transition_to(s, t(0)).unwrap();
    }
    repo.save_node(&n);
    let kind = DeploymentKind::Upgrade { target_version: ValidatorVersion::new("2.1.0").unwrap() };
    let (result, events) = deploy(&mut engine, &mut repo, &mut agent, "eu-val-01", kind);
    assert_eq!(result.unwrap().status(), RunStatus::Succeeded);
    let moves: Vec<(NodeState, NodeState)> = events
        .iter()
        .filter_map(|e| match e {
            OpsEvent::NodeStateChanged { from, to, .. } => Some((*from, *to)),
            _ => None,
        })
        .collect();
    assert_eq!(
        moves,
        vec![
            (NodeState::Active, NodeState::Draining),
            (NodeState::Draining, NodeState::CatchingUp),
            (NodeState::CatchingUp, NodeState::Active),
        ]
    );
    let stored = repo.get_node(&NodeId::new("eu-val-01").unwrap()).unwrap();
    assert_eq!(stored.version().as_str(), "2.1.0");
    assert_eq!(agent.calls(), vec![OpsActionKind::Drain, OpsActionKind::StartValidator, OpsActionKind::AwaitCatchup]);
}

#[test]
fn store_failure_ends_the_deployment() {
    let mut engine = OpsEngine::new(OpsConfig::default());
    let (mut d, cmd, _slot) =
        Deployment::begin(&mut engine, NodeId::new("n1").unwrap(), DeploymentKind::Provision).unwrap();
    assert!(matches!(cmd, DeployCommand::FetchNode(ref id) if id.as_str() == "n1"));
    assert_eq!(d.stage(), DeployStage::AwaitNode);
    assert!(!d.fits(&DeployReply::Published));
    let err = PortError::Unavailable("database unavailable".into());
    let cmd = d.advance(&mut engine, DeployReply::Fetched(Err(err.clone())), t(1));
    assert!(matches!(cmd, DeployCommand::Finish(Err(CoreError::Port(ref e))) if *e == err));
    assert_eq!(d.stage(), DeployStage::Done);
}

#[test]
fn throttled_deployment_never_starts() {
    let cfg = OpsConfig { rate_capacity: 0, ..OpsConfig::default() };
    let mut engine = OpsEngine::new(cfg);
    let begun = Deployment::begin(&mut engine, NodeId::new("n1").unwrap(), DeploymentKind::Provision);
    assert_eq!(begun.err().map(|e| e.code()), Some("THROTTLED"));
}

#[test]
fn failover_swaps_identity_and_retires_the_node() {
    let mut engine = OpsEngine::new(OpsConfig::default());
    let mut repo = InMemoryNodeRepository::new();
    let mut agent = SimNodeAgent::new();
    let mut n = node("eu-val-01", "val01.internal");
    for s in [NodeState::Bootstrapping, NodeState::CatchingUp, NodeState::Active, NodeState::Delinquent] {
        n.transition_to(s, t(0)).unwrap();
    }
    repo.save_node(&n);
    repo.save_node(&node("spare-01", "spare01.internal"));
    let kind = DeploymentKind::Failover { spare: NodeId::new("spare-01").unwrap() };
    let (result, events) = deploy(&mut engine, &mut repo, &mut agent, "eu-val-01", kind);
    let run = result.unwrap();
    assert_eq!(run.status(), RunStatus::Succeeded);
    assert_eq!(run.completed_steps(), &[OpsActionKind::Drain, OpsActionKind::SwapIdentity]);
    assert_eq!(agent.calls(), vec![OpsActionKind::Drain, OpsActionKind::SwapIdentity]);
    assert_eq!(events.last().map(|e| e.kind()), Some("run_finished"));
    let stored = repo.get_node(&NodeId::new("eu-val-01").unwrap()).unwrap();
    assert_eq!(stored.state(), NodeState::Decommissioned);
}
