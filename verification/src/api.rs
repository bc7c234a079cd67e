//! The API surface's plain types and input handling: the values a client
//! sends and receives, validation of mutation inputs, and parsing of query
//! arguments.

use vstd::prelude::*;

use crate::error::DomainError;
use crate::ids::{
    text_error, ClusterName, HostAddr, NodeId, RunId, ValidatorVersion, MAX_CLUSTER_NAME_LEN,
    MAX_HOST_ADDR_LEN, MAX_NODE_ID_LEN,
};
use crate::node::{cluster_text, role_text, state_text, Cluster, NodeRole, NodeView, ValidatorNode};
use crate::ops::{action_text, deployment_kind_text, run_status_text, DeploymentKind, DeploymentRun, OpsActionKind};
use crate::text::hex_fixed;
use crate::time::Timestamp;
use vstd::string::StringExecFns;

verus! {

/// Cluster selector of the API.
#[derive(Debug, Clone, Copy, PartialEq, Eq, Structural)]
pub enum ClusterGql {
    /// Mainnet-beta.
    Mainnet,
    /// Testnet.
    Testnet,
    /// Devnet.
    Devnet,
}

impl ClusterGql {
    /// The domain cluster this selector names.
    pub fn to_cluster(self) -> (c: Cluster)
        ensures
            c == match self {
                ClusterGql::Mainnet => Cluster::Mainnet,
                ClusterGql::Testnet => Cluster::Testnet,
                ClusterGql::Devnet => Cluster::Devnet,
            },
    {
        match self {
            ClusterGql::Mainnet => Cluster::Mainnet,
            ClusterGql::Testnet => Cluster::Testnet,
            ClusterGql::Devnet => Cluster::Devnet,
        }
    }
}

/// Node-role selector of the API.
#[derive(Debug, Clone, Copy, PartialEq, Eq, Structural)]
pub enum NodeRoleGql {
    /// Staked, voting validator.
    Voting,
    /// RPC node.
    Rpc,
    /// Unstaked hot spare.
    HotSpare,
}

impl NodeRoleGql {
    /// The domain role this selector names.
    pub fn to_role(self) -> (r: NodeRole)
        ensures
            r == match self {
                NodeRoleGql::Voting => NodeRole::Voting,
                NodeRoleGql::Rpc => NodeRole::Rpc,
                NodeRoleGql::HotSpare => NodeRole::HotSpare,
            },
    {
        match self {
            NodeRoleGql::Voting => NodeRole::Voting,
            NodeRoleGql::Rpc => NodeRole::Rpc,
            NodeRoleGql::HotSpare => NodeRole::HotSpare,
        }
    }
}

/// Deployment-kind selector of the API.
#[derive(Debug, Clone, Copy, PartialEq, Eq, Structural)]
pub enum DeploymentKindGql {
    /// Provision a new node.
    Provision,
    /// Zero-downtime upgrade (requires `targetVersion`).
    Upgrade,
    /// Fail over to a hot spare (requires `spare`).
    Failover,
    /// Drain and decommission.
    Decommission,
}

/// Input of the node registration mutation.
#[derive(Debug, PartialEq, Eq)]
pub struct RegisterNodeInput {
    /// Unique node id (at most 64 bytes).
    pub id: String,
    /// Operator cluster label.
    pub cluster_name: String,
    /// Cluster.
    pub cluster: ClusterGql,
    /// Host address (at most 253 bytes).
    pub host: String,
    /// Role.
    pub role: NodeRoleGql,
    /// Validator version (e.g. `2.0.14`).
    pub version: String,
}

/// Input of the deployment mutation.
#[derive(Debug, PartialEq, Eq)]
pub struct StartDeploymentInput {
    /// Target node id.
    pub node_id: String,
    /// What kind of deployment to run.
    pub kind: DeploymentKindGql,
    /// Target version (required for an upgrade).
    pub target_version: Option<String>,
    /// Spare node id (required for a failover).
    pub spare: Option<String>,
}

/// Why a mutation input was refused.
#[derive(Debug, PartialEq, Eq)]
pub enum InputError {
    /// A field failed domain validation.
    Invalid(DomainError),
    /// An upgrade without a target version.
    MissingTargetVersion,
    /// A failover without a spare.
    MissingSpare,
}

pub open spec fn input_error_text(e: InputError) -> Seq<char> {
    match e {
        InputError::Invalid(d) => crate::error::domain_error_text(d),
        InputError::MissingTargetVersion => "targetVersion required for UPGRADE"@,
        InputError::MissingSpare => "spare required for FAILOVER"@,
    }
}

impl InputError {
    /// The human-readable message returned to the client.
    pub fn message(&self) -> (m: String)
        ensures
            m@ == input_error_text(*self),
    {
        match self {
            InputError::Invalid(d) => d.message(),
            InputError::MissingTargetVersion => String::from_str("targetVersion required for UPGRADE"),
            InputError::MissingSpare => String::from_str("spare required for FAILOVER"),
        }
    }
}

/// Write entry points.
#[derive(Debug, Clone, Copy, Default)]
pub struct MutationRoot;

/// Read entry points.
#[derive(Debug, Clone, Copy, Default)]
pub struct QueryRoot;

/// Streaming entry points.
#[derive(Debug, Clone, Copy, Default)]
pub struct SubscriptionRoot;

/// The first registration field, in order id, cluster name, host, version,
/// that fails validation.
pub open spec fn register_input_error(input: RegisterNodeInput) -> Option<DomainError> {
    if text_error(input.id@, "node_id", Some(MAX_NODE_ID_LEN)) is Some {
        text_error(input.id@, "node_id", Some(MAX_NODE_ID_LEN))
    } else if text_error(input.cluster_name@, "cluster_name", Some(MAX_CLUSTER_NAME_LEN)) is Some {
        text_error(input.cluster_name@, "cluster_name", Some(MAX_CLUSTER_NAME_LEN))
    } else if text_error(input.host@, "host", Some(MAX_HOST_ADDR_LEN)) is Some {
        text_error(input.host@, "host", Some(MAX_HOST_ADDR_LEN))
    } else {
        text_error(input.version@, "version", None)
    }
}

/// The outcome of validating a deployment input: the node id first, then
/// the kind's required argument.
pub open spec fn deployment_input_error(input: StartDeploymentInput) -> Option<InputError> {
    if text_error(input.node_id@, "node_id", Some(MAX_NODE_ID_LEN)) is Some {
        Some(InputError::Invalid(text_error(input.node_id@, "node_id", Some(MAX_NODE_ID_LEN))->0))
    } else {
        match input.kind {
            DeploymentKindGql::Upgrade => match input.target_version {
                None => Some(InputError::MissingTargetVersion),
                Some(v) => match text_error(v@, "version", None) {
                    Some(e) => Some(InputError::Invalid(e)),
                    None => None,
                },
            },
            DeploymentKindGql::Failover => match input.spare {
                None => Some(InputError::MissingSpare),
                Some(s) => match text_error(s@, "node_id", Some(MAX_NODE_ID_LEN)) {
                    Some(e) => Some(InputError::Invalid(e)),
                    None => None,
                },
            },
            _ => None,
        }
    }
}

/// `kind` is the deployment the input asks for.
pub open spec fn kind_matches_input(input: StartDeploymentInput, kind: DeploymentKind) -> bool {
    match input.kind {
        DeploymentKindGql::Provision => kind == DeploymentKind::Provision,
        DeploymentKindGql::Decommission => kind == DeploymentKind::Decommission,
        DeploymentKindGql::Upgrade => kind matches DeploymentKind::Upgrade { target_version }
            && input.target_version matches Some(v) && target_version@ == v@,
        DeploymentKindGql::Failover => kind matches DeploymentKind::Failover { spare }
            && input.spare matches Some(s) && spare@ == s@,
    }
}

impl MutationRoot {
    /// Build the node a registration input describes, registered at `now`
    /// (it starts in `Provisioning`), or the first field that fails
    /// validation.
    pub fn node_from_input(input: &RegisterNodeInput, now: Timestamp) -> (r: Result<
        ValidatorNode,
        DomainError,
    >)
        ensures
            match register_input_error(*input) {
                Some(e) => r == Err::<ValidatorNode, DomainError>(e),
                None => r matches Ok(n) && n@ == (NodeView {
                    id: input.id@,
                    cluster_name: input.cluster_name@,
                    cluster: input.cluster.to_cluster_spec(),
                    host: input.host@,
                    role: input.role.to_role_spec(),
                    version: input.version@,
                    state: crate::node::NodeState::Provisioning,
                    created_at: now,
                    updated_at: now,
                }),
            },
    {
        let id = match NodeId::new(input.id.as_str()) {
            Ok(v) => v,
            Err(e) => return Err(e),
        };
        let cluster_name = match ClusterName::new(input.cluster_name.as_str()) {
            Ok(v) => v,
            Err(e) => return Err(e),
        };
        let host = match HostAddr::new(input.host.as_str()) {
            Ok(v) => v,
            Err(e) => return Err(e),
        };
        let version = match ValidatorVersion::new(input.version.as_str()) {
            Ok(v) => v,
            Err(e) => return Err(e),
        };
        Ok(
            ValidatorNode::new(
                id,
                cluster_name,
                input.cluster.to_cluster(),
                host,
                input.role.to_role(),
                version,
                now,
            ),
        )
    }

    /// The target node and deployment kind a deployment input asks for, or
    /// why it is refused.
    pub fn deployment_from_input(input: &StartDeploymentInput) -> (r: Result<
        (NodeId, DeploymentKind),
        InputError,
    >)
        ensures
            match deployment_input_error(*input) {
                Some(e) => r == Err::<(NodeId, DeploymentKind), InputError>(e),
                None => r matches Ok(p) && p.0@ == input.node_id@ && kind_matches_input(
                    *input,
                    p.1,
                ),
            },
    {
        let node_id = match NodeId::new(input.node_id.as_str()) {
            Ok(v) => v,
            Err(e) => return Err(InputError::Invalid(e)),
        };
        let kind = match input.kind {
            DeploymentKindGql::Provision => DeploymentKind::Provision,
            DeploymentKindGql::Decommission => DeploymentKind::Decommission,
            DeploymentKindGql::Upgrade => match &input.target_version {
                None => return Err(InputError::MissingTargetVersion),
                Some(v) => match ValidatorVersion::new(v.as_str()) {
                    Ok(target_version) => DeploymentKind::Upgrade { target_version },
                    Err(e) => return Err(InputError::Invalid(e)),
                },
            },
            DeploymentKindGql::Failover => match &input.spare {
                None => return Err(InputError::MissingSpare),
                Some(s) => match NodeId::new(s.as_str()) {
                    Ok(spare) => DeploymentKind::Failover { spare },
                    Err(e) => return Err(InputError::Invalid(e)),
                },
            },
        };
        Ok((node_id, kind))
    }
}

impl ClusterGql {
    pub open spec fn to_cluster_spec(self) -> Cluster {
        match self {
            ClusterGql::Mainnet => Cluster::Mainnet,
            ClusterGql::Testnet => Cluster::Testnet,
            ClusterGql::Devnet => Cluster::Devnet,
        }
    }
}

impl NodeRoleGql {
    pub open spec fn to_role_spec(self) -> NodeRole {
        match self {
            NodeRoleGql::Voting => NodeRole::Voting,
            NodeRoleGql::Rpc => NodeRole::Rpc,
            NodeRoleGql::HotSpare => NodeRole::HotSpare,
        }
    }
}

/// The value of the decimal digits `s`.
pub open spec fn digits_value(s: Seq<char>) -> nat
    decreases s.len(),
{
    if s.len() == 0 {
        0
    } else {
        digits_value(s.drop_last()) * 10 + ((s.last() as u32) - 48) as nat
    }
}

pub open spec fn is_ascii_digit(c: char) -> bool {
    '0' <= c && c <= '9'
}

/// The digits of an unsigned number: the text after an optional leading `+`.
pub open spec fn number_body(s: Seq<char>) -> Seq<char> {
    if s.len() > 0 && s[0] == '+' {
        s.drop_first()
    } else {
        s
    }
}

/// `u128::from_str`: an optional `+`, then one or more ASCII digits whose
/// value fits in 128 bits.
pub open spec fn parse_u128(s: Seq<char>) -> Option<u128> {
    let body = number_body(s);
    if body.len() == 0 {
        None
    } else if exists|i: int| 0 <= i < body.len() && !is_ascii_digit(#[trigger] body[i]) {
        None
    } else if digits_value(body) > u128::MAX {
        None
    } else {
        Some(digits_value(body) as u128)
    }
}

proof fn lemma_digits_value_grows(s: Seq<char>, c: char)
    requires
        is_ascii_digit(c),
    ensures
        digits_value(s.push(c)) == digits_value(s) * 10 + ((c as u32) - 48),
        digits_value(s.push(c)) >= digits_value(s),
{
    assert(s.push(c).drop_last() =~= s);
}

impl QueryRoot {
    /// Parse a run id given in decimal, as `u128::from_str` does.
    pub fn parse_run_id(id: &str) -> (r: Option<RunId>)
        ensures
            r == match parse_u128(id@) {
                Some(v) => Some(RunId(v)),
                None => None::<RunId>,
            },
    {
        let chars = crate::text::str_chars(id);
        let start: usize = if chars.len() > 0 && chars[0] == '+' {
            1
        } else {
            0
        };
        let ghost body = number_body(id@);
        proof {
            assert(body =~= id@.skip(start as int));
        }
        if start >= chars.len() {
            return None;
        }
        let mut value: u128 = 0;
        let mut overflow = false;
        let mut i: usize = start;
        while i < chars.len()
            invariant
                chars@ == id@,
                body == id@.skip(start as int),
                body == number_body(id@),
                body.len() > 0,
                start <= i <= chars@.len(),
                forall|t: int| start <= t < i ==> is_ascii_digit(#[trigger] chars@[t]),
                !overflow ==> value == digits_value(body.take(i - start)),
                overflow ==> digits_value(body.take(i - start)) > u128::MAX,
            decreases chars@.len() - i,
        {
            let c: char = chars[i];
            if !('0' <= c && c <= '9') {
                proof {
                    assert(body[i - start] == c);
                    assert(!is_ascii_digit(body[i - start]));
                    assert(body.len() > 0);
                }
                return None;
            }
            proof {
                assert(body.take(i + 1 - start) =~= body.take(i - start).push(c));
                lemma_digits_value_grows(body.take(i - start), c);
            }
            if !overflow {
                let d: u128 = ((c as u32) - 48) as u128;
                match value.checked_mul(10) {
                    Some(m) => match m.checked_add(d) {
                        Some(v) => {
                            value = v;
                        },
                        None => {
                            overflow = true;
                        },
                    },
                    None => {
                        overflow = true;
                    },
                }
            }
            i = i + 1;
        }
        proof {
            assert(body.take(i - start) =~= body);
            assert(forall|t: int| 0 <= t < body.len() ==> is_ascii_digit(#[trigger] body[t])) by {
                assert forall|t: int| 0 <= t < body.len() implies is_ascii_digit(#[trigger] body[t]) by {
                    assert(body[t] == chars@[t + start]);
                }
            }
        }
        if overflow {
            None
        } else {
            Some(RunId(value))
        }
    }

    /// The page size of a runs query: negative limits count as zero.
    pub fn runs_limit(limit: i32) -> (n: usize)
        ensures
            n == if limit < 0 {
                0
            } else {
                limit as int
            },
    {
        if limit < 0 {
            0
        } else {
            limit as usize
        }
    }

    /// The health summary for `node_count` tracked nodes (the count
    /// saturating at `i32::MAX`).
    pub fn health(node_count: usize) -> (h: HealthObject)
        ensures
            h.status@ == "ok"@,
            h.nodes == if node_count <= i32::MAX {
                node_count as int
            } else {
                i32::MAX as int
            },
    {
        let nodes: i32 = if node_count <= (i32::MAX as usize) {
            node_count as i32
        } else {
            i32::MAX
        };
        HealthObject { status: String::from_str("ok"), nodes }
    }
}

/// A validator node as exposed over the API.
#[derive(Debug, PartialEq, Eq)]
pub struct NodeObject {
    pub id: String,
    pub cluster: String,
    pub cluster_name: String,
    pub host: String,
    pub role: String,
    pub state: String,
    pub version: String,
    pub created_at: Timestamp,
    pub updated_at: Timestamp,
}

impl NodeObject {
    /// The API view of `n`.
    pub fn from_node(n: &ValidatorNode) -> (o: NodeObject)
        ensures
            o.id@ == n@.id,
            o.cluster@ == cluster_text(n@.cluster)@,
            o.cluster_name@ == n@.cluster_name,
            o.host@ == n@.host,
            o.role@ == role_text(n@.role)@,
            o.state@ == state_text(n@.state)@,
            o.version@ == n@.version,
            o.created_at == n@.created_at,
            o.updated_at == n@.updated_at,
    {
        NodeObject {
            id: n.id().to_string(),
            cluster: String::from_str(n.cluster().as_str()),
            cluster_name: n.cluster_name().to_string(),
            host: n.host().to_string(),
            role: String::from_str(n.role().as_str()),
            state: String::from_str(n.state().as_str()),
            version: n.version().to_string(),
            created_at: n.created_at(),
            updated_at: n.updated_at(),
        }
    }
}

/// A deployment run record as exposed over the API.
#[derive(Debug, PartialEq, Eq)]
pub struct RunObject {
    pub id: String,
    pub target: String,
    pub kind: String,
    pub status: String,
    pub completed_steps: Vec<String>,
    pub started_at: Timestamp,
    pub finished_at: Option<Timestamp>,
}

impl RunObject {
    /// The API view of `r`.
    pub fn from_run(r: &DeploymentRun) -> (o: RunObject)
        ensures
            o.id@ == hex_fixed(r@.id.0 as nat, 32),
            o.target@ == r@.target,
            o.kind@ == deployment_kind_text(r@.kind)@,
            o.status@ == run_status_text(r@.status)@,
            o.completed_steps@.len() == r@.completed_steps.len(),
            forall|i: int|
                0 <= i < o.completed_steps@.len() ==> (#[trigger] o.completed_steps@[i])@
                    == action_text(r@.completed_steps[i])@,
            o.started_at == r@.started_at,
            o.finished_at == r@.finished_at,
    {
        let steps = r.completed_steps();
        let mut names: Vec<String> = Vec::new();
        let mut i: usize = 0;
        while i < steps.len()
            invariant
                steps@ == r@.completed_steps,
                i <= steps@.len(),
                names@.len() == i,
                forall|t: int| 0 <= t < i ==> (#[trigger] names@[t])@ == action_text(steps@[t])@,
            decreases steps@.len() - i,
        {
            let a: OpsActionKind = steps[i];
            names.push(String::from_str(a.as_str()));
            i = i + 1;
        }
        RunObject {
            id: r.id().to_string(),
            target: r.target().to_string(),
            kind: String::from_str(r.kind().as_str()),
            status: String::from_str(r.status().as_str()),
            completed_steps: names,
            started_at: r.started_at(),
            finished_at: r.finished_at(),
        }
    }
}

/// Service health summary.
#[derive(Debug, PartialEq, Eq)]
pub struct HealthObject {
    /// Overall status string.
    pub status: String,
    /// Number of nodes currently tracked.
    pub nodes: i32,
}

/// A streamed ops event: its kind and JSON-encoded payload.
#[derive(Debug, PartialEq, Eq)]
pub struct OpsEventObject {
    /// Discriminant (e.g. `run_started`).
    pub kind: String,
    /// JSON-encoded event payload.
    pub payload: String,
}

/// A deployment input yields the deployment it selects: a provision for the
/// provision selector, a decommission for the decommission selector, an
/// upgrade to the given target version, and a failover to the given spare;
/// never a deployment of another kind.
pub proof fn lemma_deployment_kind_follows_selector(input: StartDeploymentInput, kind: DeploymentKind)
    requires
        kind_matches_input(input, kind),
    ensures
        input.kind == DeploymentKindGql::Provision <==> kind == DeploymentKind::Provision,
        input.kind == DeploymentKindGql::Decommission <==> kind == DeploymentKind::Decommission,
        input.kind == DeploymentKindGql::Upgrade <==> kind is Upgrade,
        input.kind == DeploymentKindGql::Failover <==> kind is Failover,
        kind matches DeploymentKind::Upgrade { target_version } ==> input.target_version matches Some(
            v,
        ) && target_version@ == v@,
        kind matches DeploymentKind::Failover { spare } ==> input.spare matches Some(s) && spare@
            == s@,
        deployment_kind_text(kind)@ == match input.kind {
            DeploymentKindGql::Provision => "provision"@,
            DeploymentKindGql::Upgrade => "upgrade"@,
            DeploymentKindGql::Failover => "failover"@,
            DeploymentKindGql::Decommission => "decommission"@,
        },
{
}

/// The API's cluster and role selectors map one to one onto the domain's,
/// each onto the one with the same name.
pub proof fn lemma_selectors_map_by_name(c: ClusterGql, d: ClusterGql, r: NodeRoleGql, q: NodeRoleGql)
    ensures
        c != d ==> c.to_cluster_spec() != d.to_cluster_spec(),
        r != q ==> r.to_role_spec() != q.to_role_spec(),
        cluster_text(c.to_cluster_spec())@ == match c {
            ClusterGql::Mainnet => "mainnet"@,
            ClusterGql::Testnet => "testnet"@,
            ClusterGql::Devnet => "devnet"@,
        },
        role_text(r.to_role_spec())@ == match r {
            NodeRoleGql::Voting => "voting"@,
            NodeRoleGql::Rpc => "rpc"@,
            NodeRoleGql::HotSpare => "hot_spare"@,
        },
{
}

} // verus!
