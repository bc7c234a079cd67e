use validatorforge::core_error::PortError;
use validatorforge::iac::DefaultIacRenderer;
use validatorforge::ids::{ClusterName, HostAddr, NodeId, RunId, ValidatorVersion};
use validatorforge::node::{Cluster, NodeRole, NodeState, ValidatorNode};
use validatorforge::ops::{DeploymentKind, DeploymentRun, OpsActionKind, RunStatus};
use validatorforge::repo::InMemoryNodeRepository;
use validatorforge::sim::{SimNodeAgent, SIM_INITIAL_TIP};
use validatorforge::time::Timestamp;

fn t(secs: i64) -> Timestamp {
    Timestamp::from_unix_secs(1_700_000_000 + secs)
}

fn node_with(id: &str, cluster: Cluster, host: &str) -> ValidatorNode {
    ValidatorNode::new(
        NodeId::new(id).unwrap(),
        ClusterName::new("eu-fiber").unwrap(),
        cluster,
        HostAddr::new(host).unwrap(),
        NodeRole::Voting,
        ValidatorVersion::new("2.0.14").unwrap(),
        t(0),
    )
}

fn node(id: &str) -> ValidatorNode {
    node_with(id, Cluster::Testnet, "val.internal")
}

// ---- simulated agent ----

#[test]
fn records_calls_in_order() {
    let mut agent = SimNodeAgent::new();
    agent.perform(OpsActionKind::ApplyInfra).unwrap();
    agent.perform(OpsActionKind::TuneHost).unwrap();
    assert_eq!(agent.calls(), vec![OpsActionKind::ApplyInfra, OpsActionKind::TuneHost]);
}

#[test]
fn catchup_returns_increasing_slot() {
    let mut agent = SimNodeAgent::new();
    let a = agent.await_catchup().unwrap();
    let b = agent.await_catchup().unwrap();
    assert!(b.value() > a.value());
    assert_eq!(a.value(), SIM_INITIAL_TIP);
}

#[test]
fn injected_failure_is_returned() {
    let mut agent = SimNodeAgent::failing_on(vec![OpsActionKind::StartValidator]);
    let err = agent.perform(OpsActionKind::StartValidator).unwrap_err();
    assert!(err.is_retryable());
    assert_eq!(err, PortError::Unavailable("simulated failure on start_validator".into()));
    // The failed action is still recorded.
    assert_eq!(agent.calls(), vec![OpsActionKind::StartValidator]);
}

#[test]
fn failed_catchup_keeps_the_tip() {
    let mut agent = SimNodeAgent::failing_on(vec![OpsActionKind::AwaitCatchup]);
    assert!(agent.await_catchup().is_err());
    assert_eq!(agent.calls(), vec![OpsActionKind::AwaitCatchup]);
}

// ---- repository ----

#[test]
fn save_and_get_node() {
    let mut repo = InMemoryNodeRepository::new();
    repo.save_node(&node("n1"));
    let got = repo.get_node(&NodeId::new("n1").unwrap());
    assert!(got.is_some());
    assert_eq!(repo.node_count(), 1);
}

#[test]
fn missing_node_is_none() {
    let repo = InMemoryNodeRepository::new();
    assert!(repo.get_node(&NodeId::new("ghost").unwrap()).is_none());
}

#[test]
fn runs_listed_newest_first_and_capped() {
    let mut repo = InMemoryNodeRepository::new();
    for i in 0i64..5 {
        let r = DeploymentRun::new(
            RunId(i as u128),
            NodeId::new("n1").unwrap(),
            DeploymentKind::Provision,
            t(i),
        );
        repo.save_run(&r);
    }
    let listed = repo.list_runs(3);
    assert_eq!(listed.len(), 3);
    // Newest (largest started_at) first.
    assert_eq!(listed[0].id(), RunId(4));
}

#[test]
fn save_run_is_upsert() {
    let mut repo = InMemoryNodeRepository::new();
    let mut r = DeploymentRun::new(RunId(1), NodeId::new("n1").unwrap(), DeploymentKind::Provision, t(0));
    repo.save_run(&r);
    r.finish(RunStatus::Succeeded, t(1));
    repo.save_run(&r);
    let got = repo.get_run(RunId(1)).unwrap();
    assert_eq!(got.status(), RunStatus::Succeeded);
    assert_eq!(repo.list_runs(10).len(), 1);
}

#[test]
fn save_node_is_upsert_and_list_returns_each_once() {
    let mut repo = InMemoryNodeRepository::new();
    let mut n1 = node("n1");
    repo.save_node(&n1);
    repo.save_node(&node("n2"));
    n1.transition_to(NodeState::Bootstrapping, t(5)).unwrap();
    repo.save_node(&n1);
    assert_eq!(repo.node_count(), 2);
    assert_eq!(
        repo.get_node(&NodeId::new("n1").unwrap()).unwrap().state(),
        NodeState::Bootstrapping
    );
    let mut ids: Vec<String> = repo.list_nodes().iter().map(|n| n.id().to_string()).collect();
    ids.sort();
    assert_eq!(ids, vec!["n1".to_string(), "n2".to_string()]);
}

#[test]
fn runs_with_equal_start_keep_save_order() {
    let mut repo = InMemoryNodeRepository::new();
    for (id, secs) in [(1u128, 10i64), (2, 20), (3, 10), (4, 20)] {
        repo.save_run(&DeploymentRun::new(RunId(id), NodeId::new("n").unwrap(), DeploymentKind::Decommission, t(secs)));
    }
    let ids: Vec<RunId> = repo.list_runs(10).iter().map(|r| r.id()).collect();
    assert_eq!(ids, vec![RunId(2), RunId(4), RunId(1), RunId(3)]);
    assert!(repo.list_runs(0).is_empty());
    assert!(repo.get_run(RunId(9)).is_none());
}

// ---- infrastructure-as-code ----

#[test]
fn terraform_mentions_host_and_cluster() {
    let n = node_with("eu-val-01", Cluster::Mainnet, "val01.internal");
    let tf = DefaultIacRenderer::new().render_terraform(&n, &DeploymentKind::Provision);
    assert!(tf.contains("val01.internal"));
    assert!(tf.contains("mainnet"));
    assert!(tf.contains("metal_device"));
}

#[test]
fn ansible_varies_by_action() {
    let n = node_with("eu-val-01", Cluster::Mainnet, "val01.internal");
    let r = DefaultIacRenderer::new();
    let tune = r.render_ansible(&n, OpsActionKind::TuneHost);
    assert!(tune.contains("hugepages"));
    let start = r.render_ansible(&n, OpsActionKind::StartValidator);
    assert!(start.contains("agave-validator"));
}

#[test]
fn renders_exact_snippets() {
    let n = node_with("eu-val-01", Cluster::Mainnet, "val01.internal");
    let r = DefaultIacRenderer::new();
    assert_eq!(
        r.render_terraform(&n, &DeploymentKind::Decommission),
        "# Terraform plan for eu-val-01 (mainnet) — decommission\n\
         resource \"metal_device\" \"eu-val-01\" {\n  \
         hostname         = \"val01.internal\"\n  \
         plan             = \"m3.large.x86\"\n  \
         metro            = \"fr\"\n  \
         operating_system = \"ubuntu_22_04\"\n  \
         billing_cycle    = \"hourly\"\n  \
         tags             = [\"solana\", \"mainnet\", \"voting\"]\n}\n"
    );
    assert_eq!(
        r.render_ansible(&n, OpsActionKind::Drain),
        "- name: set identity to junk keypair, wait for restart window\n  \
         hosts: val01.internal\n  \
         become: true\n  \
         vars:\n    \
         validator_version: \"2.0.14\"\n    \
         cluster: \"mainnet\"\n"
    );
}
