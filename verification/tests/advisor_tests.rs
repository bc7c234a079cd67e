use validatorforge::advisor::{HeuristicAdvisor, RecommendedAction, Urgency};
use validatorforge::ids::{ClusterName, HostAddr, NodeId, ValidatorVersion};
use validatorforge::llm::{LlmAdvisor, LlmConfig, LlmError};
use validatorforge::node::{Cluster, NodeRole, NodeState, ValidatorNode};
use validatorforge::time::{Delay, Timestamp};

fn now() -> Timestamp {
    Timestamp::from_unix_secs(1_700_000_000)
}

fn node_in(state: NodeState, role: NodeRole) -> ValidatorNode {
    let mut n = ValidatorNode::new(
        NodeId::new("eu-val-01").unwrap(),
        ClusterName::new("eu-fiber").unwrap(),
        Cluster::Mainnet,
        HostAddr::new("val01.internal").unwrap(),
        role,
        ValidatorVersion::new("2.0.14").unwrap(),
        now(),
    );
    let path: &[NodeState] = match state {
        NodeState::Provisioning => &[],
        NodeState::Bootstrapping => &[NodeState::Bootstrapping],
        NodeState::CatchingUp => &[NodeState::Bootstrapping, NodeState::CatchingUp],
        NodeState::Active => &[NodeState::Bootstrapping, NodeState::CatchingUp, NodeState::Active],
        NodeState::Delinquent => &[
            NodeState::Bootstrapping,
            NodeState::CatchingUp,
            NodeState::Active,
            NodeState::Delinquent,
        ],
        NodeState::Draining => &[
            NodeState::Bootstrapping,
            NodeState::CatchingUp,
            NodeState::Active,
            NodeState::Draining,
        ],
        NodeState::Decommissioned => &[
            NodeState::Bootstrapping,
            NodeState::CatchingUp,
            NodeState::Active,
            NodeState::Draining,
            NodeState::Decommissioned,
        ],
        NodeState::Failed => &[NodeState::Failed],
    };
    for s in path {
        n.transition_to(*s, now()).unwrap();
    }
    n
}

#[test]
fn failed_node_is_investigate_high() {
    let n = node_in(NodeState::Failed, NodeRole::Voting);
    let r = HeuristicAdvisor::new().recommend(&n, "");
    assert_eq!(r.action, RecommendedAction::Investigate);
    assert_eq!(r.urgency, Urgency::High);
}

#[test]
fn delinquent_voting_node_fails_over() {
    let n = node_in(NodeState::Delinquent, NodeRole::Voting);
    let r = HeuristicAdvisor::new().recommend(&n, "missing votes");
    assert_eq!(r.action, RecommendedAction::Failover);
    assert_eq!(r.urgency, Urgency::High);
}

#[test]
fn delinquent_rpc_node_only_investigates() {
    let n = node_in(NodeState::Delinquent, NodeRole::Rpc);
    let r = HeuristicAdvisor::new().recommend(&n, "");
    assert_eq!(r.action, RecommendedAction::Investigate);
}

#[test]
fn cve_context_triggers_urgent_upgrade() {
    let n = node_in(NodeState::Active, NodeRole::Voting);
    let r = HeuristicAdvisor::new().recommend(&n, "CVE-2025-1234 disclosed");
    assert_eq!(r.action, RecommendedAction::Upgrade);
    assert_eq!(r.urgency, Urgency::High);
}

#[test]
fn lagging_active_node_tunes_host() {
    let n = node_in(NodeState::Active, NodeRole::Voting);
    let r = HeuristicAdvisor::new().recommend(&n, "node falling behind tip");
    assert_eq!(r.action, RecommendedAction::TuneHost);
}

#[test]
fn in_flight_node_holds() {
    let n = node_in(NodeState::CatchingUp, NodeRole::Voting);
    let r = HeuristicAdvisor::new().recommend(&n, "");
    assert_eq!(r.action, RecommendedAction::Hold);
    assert_eq!(r.urgency, Urgency::Low);
}

#[test]
fn context_signals_are_case_insensitive_and_ordered() {
    let active = node_in(NodeState::Active, NodeRole::Voting);
    let adv = HeuristicAdvisor::new();
    // Delinquency named in the context outranks an upgrade request.
    let r = adv.recommend(&active, "NOT VOTING since the Upgrade");
    assert_eq!((r.action, r.urgency), (RecommendedAction::Failover, Urgency::High));
    let r = adv.recommend(&active, "New Version available");
    assert_eq!((r.action, r.urgency), (RecommendedAction::Upgrade, Urgency::Medium));
    // Lag on a node that is not active is not a tuning signal.
    let draining = node_in(NodeState::Draining, NodeRole::Rpc);
    let r = adv.recommend(&draining, "slow");
    assert_eq!(r.action, RecommendedAction::Hold);
    assert_eq!(r.rationale, "node is draining/decommissioned; no action required");
    let r = adv.recommend(&active, "all good");
    assert_eq!(r.rationale, "node is active and within tolerances; hold");
    assert_eq!(RecommendedAction::TuneHost.as_str(), "tune_host");
    assert_eq!(Urgency::Medium.as_str(), "medium");
}

// ---- language-model advisor decisions ----

#[test]
fn empty_key_disables_the_model() {
    let cfg = LlmConfig::default();
    assert_eq!(LlmAdvisor::check_enabled(&cfg), Err(LlmError::Disabled));
    assert_eq!(LlmError::Disabled.reason(), "disabled (no api key)");
    assert!(!LlmError::Disabled.is_retryable());
    let keyed = LlmConfig { api_key: "k".into(), ..LlmConfig::default() };
    assert_eq!(LlmAdvisor::check_enabled(&keyed), Ok(()));
}

#[test]
fn model_retry_policy_has_at_least_one_attempt() {
    let cfg = LlmConfig { max_retries: 0, ..LlmConfig::default() };
    let p = LlmAdvisor::retry_policy(&cfg);
    assert_eq!(p.max_attempts, 1);
    assert_eq!(p.base_delay, Delay::from_millis(100));
    assert_eq!(p.max_delay, Delay::from_secs(2));
    assert_eq!(LlmConfig::default().timeout, Delay::from_secs(4));
}

#[test]
fn user_prompt_quotes_the_heuristic() {
    let n = node_in(NodeState::Active, NodeRole::Voting);
    let hint = HeuristicAdvisor::new().recommend(&n, "all good");
    let prompt = LlmAdvisor::user_prompt(&n, "all good", &hint);
    assert_eq!(
        prompt,
        "Node eu-val-01 (role=voting, state=active, version=2.0.14). Context: \"all good\". \
         A deterministic heuristic suggests: hold (Low) — node is active and within tolerances; \
         hold. Confirm or refine."
    );
}

#[test]
fn completion_must_be_non_blank() {
    assert_eq!(
        LlmAdvisor::completion_text(vec!["  do it  ".into(), "ignored".into()]),
        Ok("  do it  ".to_string())
    );
    assert_eq!(
        LlmAdvisor::completion_text(vec![" \n ".into()]),
        Err(LlmError::Provider("empty completion".into()))
    );
    assert_eq!(
        LlmAdvisor::completion_text(vec![]).unwrap_err().reason(),
        "provider error: empty completion"
    );
    assert!(LlmError::Timeout.is_retryable());
}
