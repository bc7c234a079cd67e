use validatorforge::agent::{AttemptOutcome, GuardDecision, ResilientNodeAgent};
use validatorforge::config::OpsConfig;
use validatorforge::core_error::{CoreError, PortError};
use validatorforge::engine::{NodeStateChange, OpsEngine};
use validatorforge::error::{DomainError, ErrorCode};
use validatorforge::event::OpsEvent;
use validatorforge::health::{HealthSnapshot, HealthStatus};
use validatorforge::ids::{ClusterName, HostAddr, NodeId, RunId, Slot, ValidatorVersion};
use validatorforge::node::{Cluster, NodeRole, NodeState, ValidatorNode};
use validatorforge::ops::{DeploymentKind, DeploymentRun, OpsActionKind, RunStatus};
use validatorforge::saga::{
    build_plan, AgentCall, SagaCommand, SagaContext, SagaExecutor, SagaNotice, SagaStep,
    StepEffect,
};
use validatorforge::sim::SimNodeAgent;
use validatorforge::time::{Delay, Timestamp};

fn t0() -> Timestamp {
    Timestamp::from_unix_secs(1_700_000_000)
}

fn node(id: &str, host: &str) -> ValidatorNode {
    ValidatorNode::new(
        NodeId::new(id).unwrap(),
        ClusterName::new("eu-fiber").unwrap(),
        Cluster::Testnet,
        HostAddr::new(host).unwrap(),
        NodeRole::Voting,
        ValidatorVersion::new("2.0.14").unwrap(),
        t0(),
    )
}

fn ctx() -> SagaContext {
    SagaContext {
        host: HostAddr::new("val01").unwrap(),
        version: ValidatorVersion::new("2.0.14").unwrap(),
        spare_host: Some(HostAddr::new("spare01").unwrap()),
    }
}

fn run() -> DeploymentRun {
    DeploymentRun::new(RunId(1), NodeId::new("n1").unwrap(), DeploymentKind::Provision, t0())
}

/// Perform one effect against the simulator; whether it succeeded.
fn perform(agent: &mut SimNodeAgent, effect: &StepEffect) -> bool {
    match effect {
        StepEffect::Succeed => true,
        StepEffect::Fail(_) => false,
        StepEffect::Call(call) => match call.action() {
            OpsActionKind::AwaitCatchup => agent.await_catchup().is_ok(),
            action => agent.perform(action).is_ok(),
        },
    }
}

/// Drive a saga to its end; the terminal status and the notices raised.
fn drive(
    ex: &mut SagaExecutor,
    run: &mut DeploymentRun,
    agent: &mut SimNodeAgent,
) -> (RunStatus, Vec<SagaNotice>) {
    let mut notices = Vec::new();
    loop {
        match ex.next_command() {
            SagaCommand::Finish(status) => return (status, notices),
            SagaCommand::Execute { effect, .. } | SagaCommand::Compensate { effect, .. } => {
                let ok = perform(agent, &effect);
                if let Some(n) = ex.record_outcome(ok, run) {
                    notices.push(n);
                }
            }
        }
    }
}

fn fast_cfg() -> OpsConfig {
    OpsConfig {
        op_timeout: Delay::from_millis(50),
        retry_base: Delay::from_millis(1),
        retry_max: Delay::from_millis(2),
        breaker_threshold: 5,
        ..OpsConfig::default()
    }
}

#[test]
fn retry_delay_is_equal_jitter_backoff() {
    let cfg = OpsConfig {
        retry_base: Delay::from_millis(100),
        retry_max: Delay::from_secs(10),
        ..OpsConfig::default()
    };
    let agent = ResilientNodeAgent::new(&cfg);
    for index in 0..4u32 {
        let capped = 100u64 << index;
        let d = agent.retry_delay(index);
        assert!(d >= Delay::from_millis(capped / 2));
        assert!(d <= Delay::from_millis(capped));
    }
}

// ---- errors ----

#[test]
fn retryable_classification() {
    assert!(PortError::Unavailable("x".into()).is_retryable());
    assert!(PortError::Timeout("x".into()).is_retryable());
    assert!(!PortError::Rejected("x".into()).is_retryable());
    assert!(!PortError::Internal("x".into()).is_retryable());
}

#[test]
fn core_error_codes() {
    assert_eq!(CoreError::Port(PortError::Unavailable("x".into())).code(), "UNAVAILABLE");
    assert_eq!(CoreError::NotFound("n".into()).code(), "NOT_FOUND");
    assert_eq!(CoreError::Throttled.code(), "THROTTLED");
    assert_eq!(CoreError::CircuitOpen.code(), "CIRCUIT_OPEN");
}

#[test]
fn port_codes() {
    assert_eq!(PortError::Rejected("x".into()).code(), "REJECTED");
    assert_eq!(PortError::Internal("x".into()).code(), "INTERNAL");
}

#[test]
fn error_messages_match_their_display_form() {
    assert_eq!(PortError::Timeout("drain".into()).message(), "operation timed out: drain");
    assert_eq!(CoreError::NotFound("ghost".into()).message(), "not found: ghost");
    assert_eq!(CoreError::Throttled.message(), "request throttled");
    let domain = CoreError::Domain(DomainError::Empty { field: "host" });
    assert_eq!(domain.code(), "EMPTY");
    assert_eq!(domain.message(), "host must not be empty");
}

// ---- config and events ----

#[test]
fn defaults_are_sane() {
    let c = OpsConfig::default();
    assert!(c.lag_warn < c.lag_crit);
    assert!(c.skip_crit > 0 && c.skip_crit <= 1_000_000);
    assert!(c.max_attempts >= 1);
    assert!(c.max_concurrent_deploys >= 1);
}

#[test]
fn event_kind_strings() {
    let e = OpsEvent::RunFinished { run: RunId(1), status: RunStatus::Succeeded, at: t0() };
    assert_eq!(e.kind(), "run_finished");
    let s = OpsEvent::StepCompensated { run: RunId(1), action: OpsActionKind::Drain, at: t0() };
    assert_eq!(s.kind(), "step_compensated");
}

// ---- saga ----

#[test]
fn plans_have_expected_shapes() {
    assert_eq!(build_plan(&DeploymentKind::Provision).len(), 4);
    assert_eq!(build_plan(&DeploymentKind::Decommission).len(), 2);
}

#[test]
fn provision_happy_path_succeeds() {
    let mut agent = SimNodeAgent::new();
    let mut r = run();
    let mut ex = SagaExecutor::new(build_plan(&DeploymentKind::Provision), ctx());
    let (status, notices) = drive(&mut ex, &mut r, &mut agent);
    assert_eq!(status, RunStatus::Succeeded);
    assert_eq!(r.completed_steps().len(), 4);
    assert_eq!(notices.len(), 4);
    assert!(ex.is_finished());
}

#[test]
fn failure_triggers_compensation_rollback() {
    let mut agent = SimNodeAgent::failing_on(vec![OpsActionKind::StartValidator]);
    let mut r = run();
    let mut ex = SagaExecutor::new(build_plan(&DeploymentKind::Provision), ctx());
    let (status, notices) = drive(&mut ex, &mut r, &mut agent);
    assert_eq!(status, RunStatus::RolledBack);
    // Tune-host needs no undo; apply-infra is undone by destroying the infra.
    assert_eq!(
        agent.calls(),
        vec![
            OpsActionKind::ApplyInfra,
            OpsActionKind::TuneHost,
            OpsActionKind::StartValidator,
            OpsActionKind::DestroyInfra,
        ]
    );
    assert_eq!(
        notices,
        vec![
            SagaNotice::StepCompleted(OpsActionKind::ApplyInfra),
            SagaNotice::StepCompleted(OpsActionKind::TuneHost),
            SagaNotice::StepCompensated(OpsActionKind::TuneHost),
            SagaNotice::StepCompensated(OpsActionKind::ApplyInfra),
        ]
    );
    assert_eq!(r.completed_steps(), &[OpsActionKind::ApplyInfra, OpsActionKind::TuneHost]);
}

#[test]
fn compensation_failure_yields_failed() {
    let mut agent =
        SimNodeAgent::failing_on(vec![OpsActionKind::StartValidator, OpsActionKind::DestroyInfra]);
    let mut r = run();
    let mut ex = SagaExecutor::new(build_plan(&DeploymentKind::Provision), ctx());
    let (status, _) = drive(&mut ex, &mut r, &mut agent);
    assert_eq!(status, RunStatus::Failed);
}

#[test]
fn failover_plan_swaps_identity() {
    let kind = DeploymentKind::Failover { spare: NodeId::new("spare01").unwrap() };
    let steps = build_plan(&kind);
    assert_eq!(steps.len(), 2);
    let mut agent = SimNodeAgent::new();
    let mut r = run();
    let mut ex = SagaExecutor::new(steps, ctx());
    match ex.next_command() {
        SagaCommand::Execute { index, action, .. } => {
            assert_eq!((index, action), (0, OpsActionKind::Drain));
        }
        other => panic!("unexpected {:?}", other),
    }
    ex.record_outcome(true, &mut r);
    match ex.next_command() {
        SagaCommand::Execute { effect, .. } => assert_eq!(
            effect,
            StepEffect::Call(AgentCall::SwapIdentity {
                from: HostAddr::new("val01").unwrap(),
                to: HostAddr::new("spare01").unwrap(),
            })
        ),
        other => panic!("unexpected {:?}", other),
    }
    let (status, _) = drive(&mut ex, &mut r, &mut agent);
    assert_eq!(status, RunStatus::Succeeded);
}

#[test]
fn swap_without_spare_fails_without_calling_the_agent() {
    let step = SagaStep::for_action(OpsActionKind::SwapIdentity);
    let no_spare = SagaContext { spare_host: None, ..ctx() };
    assert_eq!(
        step.execute(&no_spare),
        StepEffect::Fail(PortError::Rejected("failover requires a spare host".into()))
    );
    assert_eq!(step.compensate(&no_spare), StepEffect::Succeed);
    let start = SagaStep::for_action(OpsActionKind::StartValidator);
    assert_eq!(
        start.compensate(&ctx()),
        StepEffect::Call(AgentCall::Drain { host: HostAddr::new("val01").unwrap() })
    );
}

#[test]
fn first_step_failure_rolls_back_with_nothing_to_undo() {
    let mut agent = SimNodeAgent::failing_on(vec![OpsActionKind::Drain]);
    let mut r = run();
    let kind = DeploymentKind::Upgrade { target_version: ValidatorVersion::new("2.1.0").unwrap() };
    let mut ex = SagaExecutor::new(build_plan(&kind), ctx());
    let (status, notices) = drive(&mut ex, &mut r, &mut agent);
    assert_eq!(status, RunStatus::RolledBack);
    assert!(notices.is_empty());
    assert_eq!(agent.calls(), vec![OpsActionKind::Drain]);
}

// ---- resilient agent ----

#[test]
fn retries_transient_then_succeeds() {
    let mut agent = ResilientNodeAgent::new(&fast_cfg());
    let mut call = agent.begin("apply_infra").unwrap();
    let d = agent.on_attempt(&mut call, AttemptOutcome::Failed(PortError::Unavailable("warming up".into())));
    assert_eq!(d, GuardDecision::Retry { index: 0 });
    assert!(agent.retry_delay(0) <= Delay::from_millis(2));
    let d = agent.on_attempt(&mut call, AttemptOutcome::Succeeded);
    assert_eq!(d, GuardDecision::Done);
    assert_eq!(call.attempts(), 1);
    assert_eq!(agent.breaker_state(), "closed");
}

#[test]
fn does_not_retry_rejected() {
    let mut agent = ResilientNodeAgent::new(&fast_cfg());
    let mut call = agent.begin("drain").unwrap();
    let d = agent.on_attempt(&mut call, AttemptOutcome::Failed(PortError::Rejected("nope".into())));
    assert_eq!(d, GuardDecision::GiveUp(PortError::Rejected("nope".into())));
    assert_eq!(call.attempts(), 1);
}

#[test]
fn opens_breaker_after_threshold() {
    let small = OpsConfig { breaker_threshold: 2, max_attempts: 1, ..fast_cfg() };
    let mut agent = ResilientNodeAgent::new(&small);
    for _ in 0..2 {
        let mut call = agent.begin("tune_host").unwrap();
        let d = agent.on_attempt(&mut call, AttemptOutcome::Failed(PortError::Unavailable("down".into())));
        assert_eq!(d, GuardDecision::GiveUp(PortError::Unavailable("down".into())));
    }
    // The breaker is now open; the next call fails fast as Unavailable.
    let err = agent.begin("tune_host").unwrap_err();
    assert_eq!(err, PortError::Unavailable("circuit open for tune_host".into()));
    assert_eq!(agent.breaker_state(), "open");
}

#[test]
fn timed_out_attempts_report_the_label_and_exhaust_attempts() {
    let cfg = OpsConfig { max_attempts: 2, ..fast_cfg() };
    let mut agent = ResilientNodeAgent::new(&cfg);
    assert_eq!(agent.op_timeout(), Delay::from_millis(50));
    let mut call = agent.begin("await_catchup").unwrap();
    assert_eq!(agent.on_attempt(&mut call, AttemptOutcome::TimedOut), GuardDecision::Retry { index: 0 });
    assert_eq!(
        agent.on_attempt(&mut call, AttemptOutcome::TimedOut),
        GuardDecision::GiveUp(PortError::Timeout("await_catchup".into()))
    );
}

// ---- engine ----

#[test]
fn provision_drives_node_to_active() {
    let mut engine = OpsEngine::new(fast_cfg());
    let _slot = engine.acquire_admission().unwrap();
    let mut n = node("eu-val-01", "val01.internal");
    let (mut r, mut ex) = engine.prepare(&n, &DeploymentKind::Provision, None, t0());
    assert_eq!(r.id(), RunId(1));
    let mut agent = SimNodeAgent::new();
    let (status, _) = drive(&mut ex, &mut r, &mut agent);
    let later = Timestamp::from_unix_secs(1_700_000_010);
    let (changes, res) = OpsEngine::settle(&mut n, &DeploymentKind::Provision, status, later);
    assert!(res.is_ok());
    assert_eq!(changes.len(), 3);
    assert_eq!(
        changes[0],
        NodeStateChange { from: NodeState::Provisioning, to: NodeState::Bootstrapping }
    );
    r.finish(status, later);
    assert_eq!(r.status(), RunStatus::Succeeded);
    assert_eq!(n.state(), NodeState::Active);
    assert_eq!(n.updated_at(), later);
}

#[test]
fn rolled_back_provision_settles_as_failed() {
    let mut engine = OpsEngine::new(fast_cfg());
    let mut n = node("eu-val-01", "val01.internal");
    let (mut r, mut ex) = engine.prepare(&n, &DeploymentKind::Provision, None, t0());
    let mut agent = SimNodeAgent::failing_on(vec![OpsActionKind::ApplyInfra]);
    let (status, _) = drive(&mut ex, &mut r, &mut agent);
    assert_eq!(status, RunStatus::RolledBack);
    let (changes, res) = OpsEngine::settle(&mut n, &DeploymentKind::Provision, status, t0());
    assert!(res.is_ok());
    assert_eq!(changes, vec![NodeStateChange { from: NodeState::Provisioning, to: NodeState::Failed }]);
    assert_eq!(n.state(), NodeState::Failed);
}

#[test]
fn upgrade_records_target_version_and_returns_to_active() {
    let mut engine = OpsEngine::new(fast_cfg());
    let mut n = node("eu-val-01", "val01.internal");
    for s in [NodeState::Bootstrapping, NodeState::CatchingUp, NodeState::Active] {
        n.transition_to(s, t0()).unwrap();
    }
    let kind = DeploymentKind::Upgrade { target_version: ValidatorVersion::new("2.1.0").unwrap() };
    let (mut r, mut ex) = engine.prepare(&n, &kind, None, t0());
    assert_eq!(r.id(), RunId(1));
    let mut agent = SimNodeAgent::new();
    let (status, _) = drive(&mut ex, &mut r, &mut agent);
    let (changes, res) = OpsEngine::settle(&mut n, &kind, status, t0());
    assert!(res.is_ok());
    assert_eq!(changes.len(), 3);
    assert_eq!(n.state(), NodeState::Active);
    assert_eq!(n.version().as_str(), "2.1.0");
    // The next run gets the next id.
    let (r2, _) = engine.prepare(&n, &DeploymentKind::Decommission, None, t0());
    assert_eq!(r2.id(), RunId(2));
}

#[test]
fn settling_a_refused_path_moves_nothing() {
    let mut n = node("eu-val-01", "val01.internal");
    let (changes, res) = OpsEngine::settle(&mut n, &DeploymentKind::Decommission, RunStatus::Succeeded, t0());
    assert!(changes.is_empty());
    assert_eq!(
        res.unwrap_err(),
        DomainError::IllegalTransition { from: "provisioning", to: "draining" }
    );
    assert_eq!(n.state(), NodeState::Provisioning);
    let (changes, res) = OpsEngine::settle(&mut n, &DeploymentKind::Decommission, RunStatus::RolledBack, t0());
    assert!(changes.is_empty() && res.is_ok());
}

#[test]
fn failover_uses_the_spare_host() {
    let mut engine = OpsEngine::new(fast_cfg());
    let n = node("eu-val-01", "val01.internal");
    let spare = node("spare-01", "spare01.internal");
    let kind = DeploymentKind::Failover { spare: NodeId::new("spare-01").unwrap() };
    let (_r, ex) = engine.prepare(&n, &kind, Some(&spare), t0());
    ex.next_command();
    let mut r = run();
    let mut ex = ex;
    ex.record_outcome(true, &mut r);
    match ex.next_command() {
        SagaCommand::Execute { effect, .. } => assert_eq!(
            effect,
            StepEffect::Call(AgentCall::SwapIdentity {
                from: HostAddr::new("val01.internal").unwrap(),
                to: HostAddr::new("spare01.internal").unwrap(),
            })
        ),
        other => panic!("unexpected {:?}", other),
    }
}

#[test]
fn admission_throttles_once_the_bucket_is_empty() {
    let cfg = OpsConfig { rate_capacity: 2, rate_per_sec: 0, ..fast_cfg() };
    let mut engine = OpsEngine::new(cfg);
    let a = engine.acquire_admission();
    let b = engine.acquire_admission();
    assert!(a.is_ok() && b.is_ok());
    assert_eq!(engine.acquire_admission().err(), Some(CoreError::Throttled));
}

#[test]
fn bulkhead_full_is_throttled() {
    let cfg = OpsConfig { max_concurrent_deploys: 1, ..fast_cfg() };
    let mut engine = OpsEngine::new(cfg);
    let held = engine.acquire_admission().unwrap();
    assert_eq!(engine.acquire_admission().err(), Some(CoreError::Throttled));
    drop(held);
    assert!(engine.acquire_admission().is_ok());
}

#[test]
fn evaluate_health_classifies() {
    let engine = OpsEngine::new(fast_cfg());
    let snap = HealthSnapshot::new(Slot(1000), Slot(998), 0, 1000, t0());
    assert_eq!(engine.classify_health(&snap, t0()), HealthStatus::Healthy);
    assert_eq!(engine.config().lag_warn, 32);
}

#[test]
fn health_verdict_for_known_node_publishes_the_classification() {
    let engine = OpsEngine::new(fast_cfg());
    let id = NodeId::new("eu-val-01").unwrap();
    let snap = HealthSnapshot::new(Slot(1000), Slot(998), 0, 1000, t0());
    let found = Ok(Some(node("eu-val-01", "10.0.0.1")));
    let (status, event) = engine.health_verdict(&id, found, &snap, t0()).unwrap();
    assert_eq!(status, HealthStatus::Healthy);
    assert_eq!(event, OpsEvent::HealthEvaluated { node: id.clone(), status, at: t0() });
}

#[test]
fn health_verdict_for_unknown_node_is_not_found() {
    let engine = OpsEngine::new(fast_cfg());
    let id = NodeId::new("ghost").unwrap();
    let snap = HealthSnapshot::new(Slot(1000), Slot(998), 0, 1000, t0());
    let r = engine.health_verdict(&id, Ok(None), &snap, t0());
    assert_eq!(r.err(), Some(CoreError::NotFound("ghost".to_string())));
    let failed = engine.health_verdict(&id, Err(PortError::Timeout("db".to_string())), &snap, t0());
    assert_eq!(failed.err(), Some(CoreError::Port(PortError::Timeout("db".to_string()))));
}
