use validatorforge::error::{DomainError, ErrorCode};
use validatorforge::health::{HealthSnapshot, HealthStatus, SKIP_RATE_ONE_PPM};
use validatorforge::ids::{
    ClusterName, HostAddr, NodeId, RunId, Slot, ValidatorVersion, MAX_CLUSTER_NAME_LEN,
    MAX_HOST_ADDR_LEN, MAX_NODE_ID_LEN,
};
use validatorforge::node::NodeState::{
    Active, Bootstrapping, CatchingUp, Decommissioned, Delinquent, Draining, Failed, Provisioning,
};
use validatorforge::node::{Cluster, NodeRole, NodeState, ValidatorNode};
use validatorforge::ops::{
    DeploymentKind, DeploymentRun, OpsActionKind, RunStatus, SagaStepOutcome,
};
use validatorforge::time::Timestamp;

fn t0() -> Timestamp {
    Timestamp::from_unix_secs(1_700_000_000)
}

fn sample(now: Timestamp) -> ValidatorNode {
    ValidatorNode::new(
        NodeId::new("eu-val-01").unwrap(),
        ClusterName::new("eu-central-fiber").unwrap(),
        Cluster::Testnet,
        HostAddr::new("val01.internal").unwrap(),
        NodeRole::Voting,
        ValidatorVersion::new("2.0.14").unwrap(),
        now,
    )
}

// ---- ids ----

#[test]
fn node_id_rejects_empty_and_blank() {
    assert_eq!(NodeId::new("").unwrap_err().code(), ErrorCode::Empty);
    assert_eq!(NodeId::new("   ").unwrap_err().code(), ErrorCode::Empty);
}

#[test]
fn node_id_rejects_too_long() {
    let long = "x".repeat(MAX_NODE_ID_LEN + 1);
    assert_eq!(NodeId::new(&long).unwrap_err().code(), ErrorCode::TooLong);
}

#[test]
fn node_id_roundtrips_display_and_accessor() {
    let id = NodeId::new("eu-val-01").unwrap();
    assert_eq!(id.as_str(), "eu-val-01");
    assert_eq!(id.to_string(), "eu-val-01");
}

#[test]
fn cluster_name_validates() {
    assert!(ClusterName::new("eu-central-fiber").is_ok());
    assert!(ClusterName::new("").is_err());
    assert!(ClusterName::new(&"x".repeat(MAX_CLUSTER_NAME_LEN + 1)).is_err());
}

#[test]
fn version_validates_and_orders() {
    let a = ValidatorVersion::new("2.0.9").unwrap();
    let b = ValidatorVersion::new("2.0.14").unwrap();
    // Ordering is lexical by design.
    assert!(a > b);
    assert!(ValidatorVersion::new("").is_err());
}

#[test]
fn versions_order_character_by_character() {
    let v = |s: &str| ValidatorVersion::new(s).unwrap();
    assert!(v("2.0") < v("2.0.1"));
    assert!(v("1.18.26") < v("2.0.0"));
    assert!(v("10.0") < v("9.0"));
    assert_eq!(v("2.0.14").partial_cmp(&v("2.0.14")), Some(std::cmp::Ordering::Equal));
    assert_eq!(v("2.0.9").partial_cmp(&v("2.0.14")), Some(std::cmp::Ordering::Greater));
    assert!(v("é") > v("z"));
}

#[test]
fn timestamps_from_offsets_around_the_epoch() {
    assert_eq!(Timestamp::from_epoch_offset(false, 2, 3).unix_nanos(), 2_000_000_003);
    assert_eq!(Timestamp::from_epoch_offset(true, 1, 500).unix_nanos(), -1_000_000_500);
    assert_eq!(Timestamp::from_epoch_offset(true, 0, 0).unix_nanos(), 0);
}

#[test]
fn host_addr_validates() {
    assert!(HostAddr::new("val01.eu.fiber.internal").is_ok());
    assert!(HostAddr::new("").is_err());
    assert!(HostAddr::new(&"x".repeat(MAX_HOST_ADDR_LEN + 1)).is_err());
}

#[test]
fn slot_and_run_id_display() {
    assert_eq!(Slot(42).value(), 42);
    assert_eq!(Slot(7).to_string(), "7");
    let run = RunId(0xabc);
    assert_eq!(run.value(), 0xabc);
    assert_eq!(run.to_string().len(), 32);
}

#[test]
fn ids_accept_values_at_the_limit_and_trim_nothing() {
    let at_limit = "y".repeat(MAX_NODE_ID_LEN);
    assert_eq!(NodeId::new(&at_limit).unwrap().as_str(), at_limit);
    // Surrounding whitespace is kept: only all-blank values are refused.
    assert_eq!(NodeId::new(" a ").unwrap().as_str(), " a ");
    assert_eq!(
        ClusterName::new(&"c".repeat(MAX_CLUSTER_NAME_LEN)).unwrap().as_str().len(),
        MAX_CLUSTER_NAME_LEN
    );
}

#[test]
fn too_long_error_reports_limit_and_length() {
    let long = "x".repeat(MAX_NODE_ID_LEN + 5);
    let err = NodeId::new(&long).unwrap_err();
    assert_eq!(
        err,
        DomainError::TooLong { field: "node_id", max: MAX_NODE_ID_LEN, got: MAX_NODE_ID_LEN + 5 }
    );
    assert_eq!(err.code().as_str(), "TOO_LONG");
    let empty = ClusterName::new("\t\n").unwrap_err();
    assert_eq!(empty, DomainError::Empty { field: "cluster_name" });
}

#[test]
fn run_id_is_zero_padded_hex() {
    assert_eq!(RunId(0xabc).to_string(), "00000000000000000000000000000abc");
    assert_eq!(RunId(u128::MAX).to_string(), "ffffffffffffffffffffffffffffffff");
    assert_eq!(Slot(0).to_string(), "0");
    assert_eq!(Slot(u64::MAX).to_string(), "18446744073709551615");
    assert_eq!(Slot::default().value(), 0);
}

// ---- node ----

#[test]
fn new_node_starts_provisioning() {
    let n = sample(t0());
    assert_eq!(n.state(), NodeState::Provisioning);
    assert_eq!(n.role(), NodeRole::Voting);
    assert_eq!(n.cluster(), Cluster::Testnet);
}

#[test]
fn happy_path_lifecycle() {
    let now = t0();
    let mut n = sample(now);
    for s in [NodeState::Bootstrapping, NodeState::CatchingUp, NodeState::Active] {
        n.transition_to(s, now).unwrap();
    }
    assert!(n.state().is_healthy());
}

#[test]
fn illegal_transition_is_rejected() {
    let mut n = sample(t0());
    let err = n.transition_to(NodeState::Active, t0()).unwrap_err();
    assert_eq!(err.code(), ErrorCode::IllegalTransition);
    // State is unchanged after a rejected transition.
    assert_eq!(n.state(), NodeState::Provisioning);
}

#[test]
fn delinquent_can_recover_or_drain() {
    assert!(NodeState::Active.can_transition_to(NodeState::Delinquent));
    assert!(NodeState::Delinquent.can_transition_to(NodeState::CatchingUp));
    assert!(NodeState::Delinquent.can_transition_to(NodeState::Draining));
}

#[test]
fn terminal_states_have_no_exit() {
    for s in [NodeState::Decommissioned, NodeState::Failed] {
        assert!(s.is_terminal());
        for t in [NodeState::Provisioning, NodeState::Active, NodeState::CatchingUp] {
            assert!(!s.can_transition_to(t));
        }
    }
}

#[test]
fn set_version_updates_timestamp() {
    let now = t0();
    let mut n = sample(now);
    let later = Timestamp::from_unix_secs(1_700_000_005);
    n.set_version(ValidatorVersion::new("2.1.0").unwrap(), later);
    assert_eq!(n.version().as_str(), "2.1.0");
    assert_eq!(n.updated_at(), later);
}

#[test]
fn enum_wire_strings_are_stable() {
    assert_eq!(Cluster::Mainnet.as_str(), "mainnet");
    assert_eq!(NodeRole::HotSpare.as_str(), "hot_spare");
    assert_eq!(NodeState::CatchingUp.as_str(), "catching_up");
}

#[test]
fn transition_graph_is_exactly_the_documented_one() {
    let all = [
        Provisioning, Bootstrapping, CatchingUp, Active, Delinquent, Draining, Decommissioned,
        Failed,
    ];
    let allowed = [
        (Provisioning, Bootstrapping),
        (Provisioning, Failed),
        (Bootstrapping, CatchingUp),
        (Bootstrapping, Failed),
        (CatchingUp, Active),
        (CatchingUp, Failed),
        (Active, Delinquent),
        (Active, Draining),
        (Delinquent, CatchingUp),
        (Delinquent, Draining),
        (Draining, Decommissioned),
        (Draining, CatchingUp),
    ];
    let mut count = 0;
    for a in all {
        for b in all {
            let expected = allowed.contains(&(a, b));
            assert_eq!(a.can_transition_to(b), expected, "{:?} -> {:?}", a, b);
            if expected {
                count += 1;
            }
        }
        assert_eq!(a.is_terminal(), a == Decommissioned || a == Failed);
        assert_eq!(a.is_healthy(), a == Active);
    }
    assert_eq!(count, 12);
}

#[test]
fn accepted_transition_stamps_time_and_rejected_keeps_it() {
    let mut n = sample(t0());
    let later = Timestamp::from_unix_secs(1_700_000_100);
    n.transition_to(NodeState::Bootstrapping, later).unwrap();
    assert_eq!(n.updated_at(), later);
    assert_eq!(n.created_at(), t0());
    let err = n.transition_to(NodeState::Decommissioned, Timestamp::from_unix_secs(0)).unwrap_err();
    assert_eq!(err, DomainError::IllegalTransition { from: "bootstrapping", to: "decommissioned" });
    assert_eq!(err.message(), "illegal transition from bootstrapping to decommissioned");
    assert_eq!(n.updated_at(), later);
}

// ---- ops ----

#[test]
fn deployment_kind_discriminants() {
    assert_eq!(DeploymentKind::Provision.as_str(), "provision");
    let up = DeploymentKind::Upgrade { target_version: ValidatorVersion::new("2.1.0").unwrap() };
    assert_eq!(up.as_str(), "upgrade");
}

#[test]
fn run_lifecycle() {
    let mut run = DeploymentRun::new(
        RunId(1),
        NodeId::new("n1").unwrap(),
        DeploymentKind::Provision,
        t0(),
    );
    assert_eq!(run.status(), RunStatus::Running);
    assert!(!run.status().is_terminal());
    run.record_step(OpsActionKind::ApplyInfra);
    run.record_step(OpsActionKind::StartValidator);
    run.finish(RunStatus::Succeeded, t0());
    assert!(run.status().is_terminal());
    assert_eq!(run.completed_steps().len(), 2);
    assert!(run.finished_at().is_some());
}

#[test]
fn status_wire_strings() {
    assert_eq!(RunStatus::RolledBack.as_str(), "rolled_back");
    assert_eq!(SagaStepOutcome::Compensated.as_str(), "compensated");
    assert_eq!(OpsActionKind::SwapIdentity.as_str(), "swap_identity");
}

// ---- health ----

#[test]
fn slot_lag_saturates() {
    let s = HealthSnapshot::new(Slot(100), Slot(140), 0, 1000, t0());
    assert_eq!(s.slot_lag(), 0);
}

#[test]
fn clamps_inputs() {
    // A skip rate of 5.0 and a CPU load of -3.0, in fixed point.
    let s = HealthSnapshot::new(Slot(100), Slot(90), 5_000_000, -3_000, t0());
    assert_eq!(s.skip_rate(), SKIP_RATE_ONE_PPM);
    assert_eq!(s.cpu_load(), 0);
    assert_eq!(s.slot_lag(), 10);
}

#[test]
fn classify_bands() {
    let now = t0();
    let healthy = HealthSnapshot::new(Slot(1000), Slot(998), 10_000, 1000, now);
    assert_eq!(healthy.classify(now, 32, 128, 500_000, 60), HealthStatus::Healthy);
    let lagging = HealthSnapshot::new(Slot(1000), Slot(960), 10_000, 1000, now);
    assert_eq!(lagging.classify(now, 32, 128, 500_000, 60), HealthStatus::Lagging);
    let delinquent = HealthSnapshot::new(Slot(1000), Slot(800), 10_000, 1000, now);
    assert_eq!(delinquent.classify(now, 32, 128, 500_000, 60), HealthStatus::Delinquent);
}

#[test]
fn classify_skip_rate_critical() {
    let now = t0();
    let s = HealthSnapshot::new(Slot(1000), Slot(999), 700_000, 1000, now);
    assert_eq!(s.classify(now, 32, 128, 500_000, 60), HealthStatus::Delinquent);
}

#[test]
fn stale_snapshot_is_unknown() {
    let observed = Timestamp::from_unix_secs(1_700_000_000 - 120);
    let s = HealthSnapshot::new(Slot(1000), Slot(1000), 0, 1000, observed);
    assert_eq!(s.classify(t0(), 32, 128, 500_000, 60), HealthStatus::Unknown);
}

#[test]
fn classify_band_edges() {
    let now = t0();
    // Exactly at the warning band: lagging; exactly at the critical band: delinquent.
    let warn = HealthSnapshot::new(Slot(1000), Slot(968), 0, 0, now);
    assert_eq!(warn.classify(now, 32, 128, 500_000, 60), HealthStatus::Lagging);
    let crit = HealthSnapshot::new(Slot(1000), Slot(872), 0, 0, now);
    assert_eq!(crit.classify(now, 32, 128, 500_000, 60), HealthStatus::Delinquent);
    // A skip rate exactly at the critical threshold is delinquent.
    let skip = HealthSnapshot::new(Slot(1000), Slot(1000), 500_000, 0, now);
    assert_eq!(skip.classify(now, 32, 128, 500_000, 60), HealthStatus::Delinquent);
    // Exactly the freshness window old is still fresh; one second more is not.
    let edge = HealthSnapshot::new(Slot(1), Slot(1), 0, 0, Timestamp::from_unix_secs(1_700_000_000 - 60));
    assert_eq!(edge.classify(now, 32, 128, 500_000, 60), HealthStatus::Healthy);
    let stale = HealthSnapshot::new(Slot(1), Slot(1), 0, 0, Timestamp::from_unix_secs(1_700_000_000 - 61));
    assert_eq!(stale.classify(now, 32, 128, 500_000, 60), HealthStatus::Unknown);
    assert_eq!(HealthStatus::Lagging.as_str(), "lagging");
}
