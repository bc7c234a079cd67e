//! The `plan` command's content: the Terraform and Ansible a deployment
//! would run, rendered without touching any infrastructure.

use vstd::prelude::*;

use crate::cli::{PlanArgs, PlanKind};
use crate::error::DomainError;
use crate::iac::{ansible_text, terraform_text, DefaultIacRenderer};
use crate::ids::{text_error, ClusterName, HostAddr, NodeId, ValidatorVersion, MAX_CLUSTER_NAME_LEN, MAX_HOST_ADDR_LEN, MAX_NODE_ID_LEN};
use crate::node::{Cluster, NodeRole, NodeView, ValidatorNode};
use crate::ops::{action_text, DeploymentKind, OpsActionKind};
use crate::saga::{build_plan, plan_actions, step_actions};
use crate::text::{decimal, push_decimal};
use crate::time::Timestamp;

verus! {

/// A plan argument that failed validation: which one (as a context
/// message) and why.
#[derive(Debug, PartialEq, Eq)]
pub struct PlanError {
    /// What was being validated, e.g. `"invalid node id"`.
    pub context: &'static str,
    /// The validation failure.
    pub cause: DomainError,
}

/// The plan's section for saga step number `index` (zero-based).
pub open spec fn step_section(node: NodeView, index: nat, action: OpsActionKind) -> Seq<char> {
    "# step "@ + decimal(index + 1) + " — "@ + action_text(action)@ + "\n"@ + ansible_text(
        node,
        action,
    ) + "\n"@
}

/// The sections of the saga steps `actions`, numbered from one.
pub open spec fn steps_text(node: NodeView, actions: Seq<OpsActionKind>) -> Seq<char>
    decreases actions.len(),
{
    if actions.len() == 0 {
        Seq::empty()
    } else {
        steps_text(node, actions.drop_last()) + step_section(
            node,
            (actions.len() - 1) as nat,
            actions.last(),
        )
    }
}

/// The whole plan for `node` and `kind`: the Terraform snippet, then one
/// Ansible play per saga step.
pub open spec fn plan_text(node: NodeView, kind: DeploymentKind) -> Seq<char> {
    "# === Terraform ===\n"@ + terraform_text(node, kind) + "\n"@
        + "# === Ansible (saga steps) ===\n"@ + steps_text(node, plan_actions(kind))
}

/// The first argument, in order id, cluster name, host, version, spare (the
/// last only for a failover), that fails validation.
pub open spec fn plan_args_error(args: PlanArgs) -> Option<(&'static str, DomainError)> {
    if text_error(args.id@, "node_id", Some(MAX_NODE_ID_LEN)) is Some {
        Some(("invalid node id", text_error(args.id@, "node_id", Some(MAX_NODE_ID_LEN))->0))
    } else if text_error(args.cluster_name@, "cluster_name", Some(MAX_CLUSTER_NAME_LEN)) is Some {
        Some(
            (
                "invalid cluster name",
                text_error(args.cluster_name@, "cluster_name", Some(MAX_CLUSTER_NAME_LEN))->0,
            ),
        )
    } else if text_error(args.host@, "host", Some(MAX_HOST_ADDR_LEN)) is Some {
        Some(("invalid host address", text_error(args.host@, "host", Some(MAX_HOST_ADDR_LEN))->0))
    } else if text_error(args.version@, "version", None) is Some {
        Some(("invalid version", text_error(args.version@, "version", None)->0))
    } else if args.kind == PlanKind::Failover && text_error(
        args.spare@,
        "node_id",
        Some(MAX_NODE_ID_LEN),
    ) is Some {
        Some(("invalid spare id", text_error(args.spare@, "node_id", Some(MAX_NODE_ID_LEN))->0))
    } else {
        None
    }
}

/// The node the plan is rendered for: a testnet voting node built from the
/// arguments, registered at `now`.
pub open spec fn plan_node(args: PlanArgs, now: Timestamp) -> NodeView {
    NodeView {
        id: args.id@,
        cluster_name: args.cluster_name@,
        cluster: Cluster::Testnet,
        host: args.host@,
        role: NodeRole::Voting,
        version: args.version@,
        state: crate::node::NodeState::Provisioning,
        created_at: now,
        updated_at: now,
    }
}

/// Render the plan for the requested deployment: the text the `plan`
/// command prints, or the first argument that fails validation.
pub fn render_plan(args: &PlanArgs, now: Timestamp) -> (r: Result<String, PlanError>)
    ensures
        match plan_args_error(*args) {
            Some((context, cause)) => r == Err::<String, PlanError>(PlanError { context, cause }),
            None => r matches Ok(text) && exists|kind: DeploymentKind|
                deployment_kind_for(*args, kind) && text@ == plan_text(plan_node(*args, now), kind),
        },
{
    let id = match NodeId::new(args.id.as_str()) {
        Ok(v) => v,
        Err(cause) => return Err(PlanError { context: "invalid node id", cause }),
    };
    let cluster_name = match ClusterName::new(args.cluster_name.as_str()) {
        Ok(v) => v,
        Err(cause) => return Err(PlanError { context: "invalid cluster name", cause }),
    };
    let host = match HostAddr::new(args.host.as_str()) {
        Ok(v) => v,
        Err(cause) => return Err(PlanError { context: "invalid host address", cause }),
    };
    let version = match ValidatorVersion::new(args.version.as_str()) {
        Ok(v) => v,
        Err(cause) => return Err(PlanError { context: "invalid version", cause }),
    };
    let node = ValidatorNode::new(id, cluster_name, Cluster::Testnet, host, NodeRole::Voting, version, now);
    let kind = match args.kind {
        PlanKind::Provision => DeploymentKind::Provision,
        PlanKind::Upgrade => {
            let target = match ValidatorVersion::new(args.version.as_str()) {
                Ok(v) => v,
                Err(cause) => return Err(PlanError { context: "invalid target version", cause }),
            };
            DeploymentKind::Upgrade { target_version: target }
        },
        PlanKind::Failover => {
            let spare = match NodeId::new(args.spare.as_str()) {
                Ok(v) => v,
                Err(cause) => return Err(PlanError { context: "invalid spare id", cause }),
            };
            DeploymentKind::Failover { spare }
        },
        PlanKind::Decommission => DeploymentKind::Decommission,
    };
    let renderer = DefaultIacRenderer::new();
    let mut out = String::new();
    out.append("# === Terraform ===\n");
    let tf = renderer.render_terraform(&node, &kind);
    out.append(tf.as_str());
    out.append("\n");
    out.append("# === Ansible (saga steps) ===\n");
    let steps = build_plan(&kind);
    let ghost prefix = out@;
    let mut i: usize = 0;
    while i < steps.len()
        invariant
            i <= steps@.len(),
            step_actions(steps@) == plan_actions(kind),
            out@ == prefix + steps_text(node@, step_actions(steps@).take(i as int)),
        decreases steps@.len() - i,
    {
        let action = steps[i].action();
        out.append("# step ");
        push_decimal(&mut out, (i as u128) + 1);
        out.append(" — ");
        out.append(action.as_str());
        out.append("\n");
        let play = renderer.render_ansible(&node, action);
        out.append(play.as_str());
        out.append("\n");
        proof {
            let acts = step_actions(steps@);
            assert(acts.take(i + 1).drop_last() =~= acts.take(i as int));
            assert(acts.take(i + 1).last() == action);
            assert(out@ =~= prefix + steps_text(node@, acts.take(i + 1)));
        }
        i = i + 1;
    }
    proof {
        assert(step_actions(steps@).take(steps@.len() as int) =~= step_actions(steps@));
        assert(node@ == plan_node(*args, now));
        assert(out@ =~= plan_text(plan_node(*args, now), kind));
        assert(deployment_kind_for(*args, kind));
        assert(plan_args_error(*args) is None);
    }
    Ok(out)
}

/// `kind` is the deployment the arguments ask for.
pub open spec fn deployment_kind_for(args: PlanArgs, kind: DeploymentKind) -> bool {
    match args.kind {
        PlanKind::Provision => kind == DeploymentKind::Provision,
        PlanKind::Upgrade => kind matches DeploymentKind::Upgrade { target_version } && target_version@
            == args.version@,
        PlanKind::Failover => kind matches DeploymentKind::Failover { spare } && spare@ == args.spare@,
        PlanKind::Decommission => kind == DeploymentKind::Decommission,
    }
}

} // verus!
