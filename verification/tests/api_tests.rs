use validatorforge::api::{
    ClusterGql, DeploymentKindGql, InputError, MutationRoot, NodeObject, NodeRoleGql, QueryRoot,
    RegisterNodeInput, RunObject, StartDeploymentInput,
};
use validatorforge::cli::{PlanArgs, PlanKind, ServeArgs};
use validatorforge::error::DomainError;
use validatorforge::ids::{NodeId, RunId, ValidatorVersion};
use validatorforge::node::{Cluster, NodeRole, NodeState};
use validatorforge::ops::{DeploymentKind, DeploymentRun, OpsActionKind, RunStatus};
use validatorforge::plan::{render_plan, PlanError};
use validatorforge::time::Timestamp;

fn now() -> Timestamp {
    Timestamp::from_unix_secs(1_700_000_000)
}

fn register_input() -> RegisterNodeInput {
    RegisterNodeInput {
        id: "eu-val-01".into(),
        cluster_name: "eu-fiber".into(),
        cluster: ClusterGql::Mainnet,
        host: "val01.internal".into(),
        role: NodeRoleGql::HotSpare,
        version: "2.0.14".into(),
    }
}

fn deploy_input(kind: DeploymentKindGql) -> StartDeploymentInput {
    StartDeploymentInput { node_id: "eu-val-01".into(), kind, target_version: None, spare: None }
}

// ---- command line ----

#[test]
fn defaults_are_populated() {
    let serve = ServeArgs::default();
    assert_eq!(serve.port, 8080);
    assert_eq!(serve.event_capacity, 1024);
    let plan = PlanArgs::default();
    assert_eq!(plan.kind, PlanKind::Provision);
    assert_eq!(plan.id, "val-01");
}

// ---- plan rendering ----

#[test]
fn renders_provision_plan() {
    let text = render_plan(&PlanArgs::default(), now()).unwrap();
    assert!(text.starts_with("# === Terraform ===\n# Terraform plan for val-01 (testnet) — provision\n"));
    assert!(text.contains("# === Ansible (saga steps) ===\n# step 1 — apply_infra\n- name: base bootstrap"));
    assert!(text.contains("# step 4 — await_catchup\n"));
    assert!(!text.contains("# step 5"));
}

#[test]
fn renders_each_kind() {
    for (kind, steps, name) in [
        (PlanKind::Provision, 4, "provision"),
        (PlanKind::Upgrade, 3, "upgrade"),
        (PlanKind::Failover, 2, "failover"),
        (PlanKind::Decommission, 2, "decommission"),
    ] {
        let args = PlanArgs { kind, ..PlanArgs::default() };
        let text = render_plan(&args, now()).unwrap();
        assert!(text.contains(&format!("— {}\n", name)));
        assert!(text.contains(&format!("# step {} — ", steps)));
        assert!(!text.contains(&format!("# step {} — ", steps + 1)));
    }
}

#[test]
fn rejects_invalid_id() {
    let args = PlanArgs { id: String::new(), ..PlanArgs::default() };
    assert_eq!(
        render_plan(&args, now()),
        Err(PlanError { context: "invalid node id", cause: DomainError::Empty { field: "node_id" } })
    );
}

#[test]
fn spare_is_checked_only_for_failover() {
    let args = PlanArgs { spare: "  ".into(), ..PlanArgs::default() };
    assert!(render_plan(&args, now()).is_ok());
    let failover = PlanArgs { kind: PlanKind::Failover, spare: "  ".into(), ..PlanArgs::default() };
    assert_eq!(render_plan(&failover, now()).unwrap_err().context, "invalid spare id");
    let bad_host = PlanArgs { host: "".into(), version: "".into(), ..PlanArgs::default() };
    assert_eq!(render_plan(&bad_host, now()).unwrap_err().context, "invalid host address");
}

// ---- mutation inputs ----

#[test]
fn register_builds_a_provisioning_node() {
    let n = MutationRoot::node_from_input(&register_input(), now()).unwrap();
    assert_eq!(n.state(), NodeState::Provisioning);
    assert_eq!(n.cluster(), Cluster::Mainnet);
    assert_eq!(n.role(), NodeRole::HotSpare);
    let view = NodeObject::from_node(&n);
    assert_eq!(view.state, "provisioning");
    assert_eq!(view.role, "hot_spare");
    assert_eq!(view.id, "eu-val-01");
}

#[test]
fn register_reports_the_first_bad_field() {
    let bad = RegisterNodeInput { cluster_name: "".into(), host: "".into(), ..register_input() };
    assert_eq!(
        MutationRoot::node_from_input(&bad, now()).unwrap_err(),
        DomainError::Empty { field: "cluster_name" }
    );
}

#[test]
fn upgrade_without_target_version_errors() {
    let err = MutationRoot::deployment_from_input(&deploy_input(DeploymentKindGql::Upgrade)).unwrap_err();
    assert_eq!(err, InputError::MissingTargetVersion);
    assert_eq!(err.message(), "targetVersion required for UPGRADE");
    let err = MutationRoot::deployment_from_input(&deploy_input(DeploymentKindGql::Failover)).unwrap_err();
    assert_eq!(err.message(), "spare required for FAILOVER");
}

#[test]
fn deployment_inputs_map_to_kinds() {
    let up = StartDeploymentInput { target_version: Some("2.1.0".into()), ..deploy_input(DeploymentKindGql::Upgrade) };
    let (id, kind) = MutationRoot::deployment_from_input(&up).unwrap();
    assert_eq!(id.as_str(), "eu-val-01");
    assert_eq!(kind, DeploymentKind::Upgrade { target_version: ValidatorVersion::new("2.1.0").unwrap() });
    let fo = StartDeploymentInput { spare: Some("spare-01".into()), ..deploy_input(DeploymentKindGql::Failover) };
    let (_, kind) = MutationRoot::deployment_from_input(&fo).unwrap();
    assert_eq!(kind, DeploymentKind::Failover { spare: NodeId::new("spare-01").unwrap() });
    let bad_id = StartDeploymentInput { node_id: " ".into(), ..deploy_input(DeploymentKindGql::Provision) };
    assert_eq!(
        MutationRoot::deployment_from_input(&bad_id).unwrap_err(),
        InputError::Invalid(DomainError::Empty { field: "node_id" })
    );
}

// ---- queries ----

#[test]
fn run_ids_parse_as_decimal() {
    assert_eq!(QueryRoot::parse_run_id("42"), Some(RunId(42)));
    assert_eq!(QueryRoot::parse_run_id("+7"), Some(RunId(7)));
    assert_eq!(QueryRoot::parse_run_id("340282366920938463463374607431768211455"), Some(RunId(u128::MAX)));
    assert_eq!(QueryRoot::parse_run_id("340282366920938463463374607431768211456"), None);
    assert_eq!(QueryRoot::parse_run_id(""), None);
    assert_eq!(QueryRoot::parse_run_id("+"), None);
    assert_eq!(QueryRoot::parse_run_id("-1"), None);
    assert_eq!(QueryRoot::parse_run_id("12a"), None);
}

#[test]
fn health_and_limits() {
    let h = QueryRoot::health(3);
    assert_eq!((h.status.as_str(), h.nodes), ("ok", 3));
    assert_eq!(QueryRoot::health(usize::MAX).nodes, i32::MAX);
    assert_eq!(QueryRoot::runs_limit(-5), 0);
    assert_eq!(QueryRoot::runs_limit(20), 20);
}

#[test]
fn run_object_names_its_steps() {
    let mut run = DeploymentRun::new(RunId(255), NodeId::new("n1").unwrap(), DeploymentKind::Provision, now());
    run.record_step(OpsActionKind::ApplyInfra);
    run.finish(RunStatus::RolledBack, now());
    let o = RunObject::from_run(&run);
    assert_eq!(o.id, "000000000000000000000000000000ff");
    assert_eq!(o.kind, "provision");
    assert_eq!(o.status, "rolled_back");
    assert_eq!(o.completed_steps, vec!["apply_infra".to_string()]);
    assert_eq!(o.finished_at, Some(now()));
}
