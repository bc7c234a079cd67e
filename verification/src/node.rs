//! Validator node aggregate and its lifecycle state machine.

use vstd::prelude::*;

use crate::error::DomainError;
use crate::ids::{ClusterName, HostAddr, NodeId, ValidatorVersion};
use crate::time::Timestamp;

verus! {

/// Which Solana cluster a node participates in.
#[derive(Debug, Clone, Copy, PartialEq, Eq, Hash, Structural)]
pub enum Cluster {
    /// Mainnet-beta.
    Mainnet,
    /// Testnet.
    Testnet,
    /// Devnet.
    Devnet,
}

pub open spec fn cluster_text(c: Cluster) -> &'static str {
    match c {
        Cluster::Mainnet => "mainnet",
        Cluster::Testnet => "testnet",
        Cluster::Devnet => "devnet",
    }
}

impl Cluster {
    /// Stable wire string (also the display form).
    pub fn as_str(self) -> (s: &'static str)
        ensures
            s == cluster_text(self),
    {
        match self {
            Cluster::Mainnet => "mainnet",
            Cluster::Testnet => "testnet",
            Cluster::Devnet => "devnet",
        }
    }
}

/// The operational role a node plays in the fleet.
#[derive(Debug, Clone, Copy, PartialEq, Eq, Hash, Structural)]
pub enum NodeRole {
    /// A staked, voting validator.
    Voting,
    /// An RPC node (non-voting, serves queries).
    Rpc,
    /// An unstaked hot-spare kept warm for fast identity failover.
    HotSpare,
}

pub open spec fn role_text(r: NodeRole) -> &'static str {
    match r {
        NodeRole::Voting => "voting",
        NodeRole::Rpc => "rpc",
        NodeRole::HotSpare => "hot_spare",
    }
}

impl NodeRole {
    /// Stable wire string (also the display form).
    pub fn as_str(self) -> (s: &'static str)
        ensures
            s == role_text(self),
    {
        match self {
            NodeRole::Voting => "voting",
            NodeRole::Rpc => "rpc",
            NodeRole::HotSpare => "hot_spare",
        }
    }
}

/// The lifecycle state of a validator node.
///
/// The legal moves are:
///
/// ```text
/// Provisioning ─▶ Bootstrapping ─▶ CatchingUp ─▶ Active ─▶ Delinquent
///       │               │              │           │          │
///       ▼               ▼              ▼           ▼          ▼
///     Failed          Failed         Failed     Draining   CatchingUp (recover)
///                                                  │           │
///                                                  ▼           ▼
///                                            Decommissioned   Draining
///                                            CatchingUp
/// ```
#[derive(Debug, Clone, Copy, PartialEq, Eq, Hash, Structural)]
pub enum NodeState {
    /// Host is being provisioned.
    Provisioning,
    /// Validator process starting; downloading snapshot.
    Bootstrapping,
    /// Replaying ledger / catching up to the cluster tip.
    CatchingUp,
    /// Caught up and (for voting nodes) voting normally.
    Active,
    /// Was active but is now missing votes.
    Delinquent,
    /// Being gracefully drained ahead of an upgrade or failover.
    Draining,
    /// Permanently removed from the fleet.
    Decommissioned,
    /// Entered a terminal failure during provisioning/bootstrap.
    Failed,
}

pub open spec fn state_text(s: NodeState) -> &'static str {
    match s {
        NodeState::Provisioning => "provisioning",
        NodeState::Bootstrapping => "bootstrapping",
        NodeState::CatchingUp => "catching_up",
        NodeState::Active => "active",
        NodeState::Delinquent => "delinquent",
        NodeState::Draining => "draining",
        NodeState::Decommissioned => "decommissioned",
        NodeState::Failed => "failed",
    }
}

/// The lifecycle graph: whether `from -> to` is a legal move.
pub open spec fn transition_allowed(from: NodeState, to: NodeState) -> bool {
    match (from, to) {
        (NodeState::Provisioning, NodeState::Bootstrapping) => true,
        (NodeState::Provisioning, NodeState::Failed) => true,
        (NodeState::Bootstrapping, NodeState::CatchingUp) => true,
        (NodeState::Bootstrapping, NodeState::Failed) => true,
        (NodeState::CatchingUp, NodeState::Active) => true,
        (NodeState::CatchingUp, NodeState::Failed) => true,
        (NodeState::Active, NodeState::Delinquent) => true,
        (NodeState::Active, NodeState::Draining) => true,
        (NodeState::Delinquent, NodeState::CatchingUp) => true,
        (NodeState::Delinquent, NodeState::Draining) => true,
        (NodeState::Draining, NodeState::Decommissioned) => true,
        (NodeState::Draining, NodeState::CatchingUp) => true,
        _ => false,
    }
}

/// Terminal states admit no further transitions.
pub open spec fn state_terminal(s: NodeState) -> bool {
    s == NodeState::Decommissioned || s == NodeState::Failed
}

impl NodeState {
    /// Stable wire string (also the display form).
    pub fn as_str(self) -> (s: &'static str)
        ensures
            s == state_text(self),
    {
        match self {
            NodeState::Provisioning => "provisioning",
            NodeState::Bootstrapping => "bootstrapping",
            NodeState::CatchingUp => "catching_up",
            NodeState::Active => "active",
            NodeState::Delinquent => "delinquent",
            NodeState::Draining => "draining",
            NodeState::Decommissioned => "decommissioned",
            NodeState::Failed => "failed",
        }
    }

    /// Whether this is a terminal state (no further transitions).
    pub fn is_terminal(self) -> (b: bool)
        ensures
            b == state_terminal(self),
    {
        match self {
            NodeState::Decommissioned | NodeState::Failed => true,
            _ => false,
        }
    }

    /// Whether a node in this state is serving / voting.
    pub fn is_healthy(self) -> (b: bool)
        ensures
            b == (self == NodeState::Active),
    {
        match self {
            NodeState::Active => true,
            _ => false,
        }
    }

    /// Whether the transition `self -> next` is permitted by the state machine.
    pub fn can_transition_to(self, next: NodeState) -> (b: bool)
        ensures
            b == transition_allowed(self, next),
    {
        match (self, next) {
            (NodeState::Provisioning, NodeState::Bootstrapping) => true,
            (NodeState::Provisioning, NodeState::Failed) => true,
            (NodeState::Bootstrapping, NodeState::CatchingUp) => true,
            (NodeState::Bootstrapping, NodeState::Failed) => true,
            (NodeState::CatchingUp, NodeState::Active) => true,
            (NodeState::CatchingUp, NodeState::Failed) => true,
            (NodeState::Active, NodeState::Delinquent) => true,
            (NodeState::Active, NodeState::Draining) => true,
            (NodeState::Delinquent, NodeState::CatchingUp) => true,
            (NodeState::Delinquent, NodeState::Draining) => true,
            (NodeState::Draining, NodeState::Decommissioned) => true,
            (NodeState::Draining, NodeState::CatchingUp) => true,
            _ => false,
        }
    }
}

/// Terminal states have no exit: no transition leaves `Decommissioned` or
/// `Failed`.
pub proof fn lemma_terminal_states_have_no_exit(from: NodeState, to: NodeState)
    requires
        state_terminal(from),
    ensures
        !transition_allowed(from, to),
{
}

/// The lifecycle graph has no self-loops: every legal transition changes the
/// state.
pub proof fn lemma_transitions_change_state(from: NodeState, to: NodeState)
    requires
        transition_allowed(from, to),
    ensures
        from != to,
{
}

/// A node can only ever enter `Provisioning` at registration: no legal
/// transition leads back into it.
pub proof fn lemma_provisioning_has_no_entry(from: NodeState)
    ensures
        !transition_allowed(from, NodeState::Provisioning),
{
}

/// The lifecycle: a node is provisioned, bootstraps, catches up and becomes
/// active, and is drained before it is decommissioned; a delinquent node
/// recovers by catching up again, and a drained node catches up again after
/// an upgrade. Only a node still being brought up can fail; only a catching
/// up node becomes active; only a draining node is decommissioned.
pub proof fn lemma_lifecycle(s: NodeState)
    ensures
        transition_allowed(NodeState::Provisioning, NodeState::Bootstrapping),
        transition_allowed(NodeState::Bootstrapping, NodeState::CatchingUp),
        transition_allowed(NodeState::CatchingUp, NodeState::Active),
        transition_allowed(NodeState::Active, NodeState::Draining),
        transition_allowed(NodeState::Draining, NodeState::Decommissioned),
        transition_allowed(NodeState::Active, NodeState::Delinquent),
        transition_allowed(NodeState::Delinquent, NodeState::CatchingUp),
        transition_allowed(NodeState::Delinquent, NodeState::Draining),
        transition_allowed(NodeState::Draining, NodeState::CatchingUp),
        transition_allowed(s, NodeState::Failed) <==> (s == NodeState::Provisioning || s
            == NodeState::Bootstrapping || s == NodeState::CatchingUp),
        transition_allowed(s, NodeState::Active) <==> s == NodeState::CatchingUp,
        transition_allowed(s, NodeState::Decommissioned) <==> s == NodeState::Draining,
        transition_allowed(s, NodeState::Delinquent) <==> s == NodeState::Active,
{
}

/// The abstract content of a [`ValidatorNode`].
pub struct NodeView {
    pub id: Seq<char>,
    pub cluster_name: Seq<char>,
    pub cluster: Cluster,
    pub host: Seq<char>,
    pub role: NodeRole,
    pub version: Seq<char>,
    pub state: NodeState,
    pub created_at: Timestamp,
    pub updated_at: Timestamp,
}

/// A validator node aggregate: identity, placement, role, version and current
/// lifecycle state. The state only changes through
/// [`ValidatorNode::transition_to`], which enforces the state machine.
#[derive(Debug, PartialEq, Eq)]
pub struct ValidatorNode {
    id: NodeId,
    cluster_name: ClusterName,
    cluster: Cluster,
    host: HostAddr,
    role: NodeRole,
    version: ValidatorVersion,
    state: NodeState,
    created_at: Timestamp,
    updated_at: Timestamp,
}

impl View for ValidatorNode {
    type V = NodeView;

    closed spec fn view(&self) -> NodeView {
        NodeView {
            id: self.id@,
            cluster_name: self.cluster_name@,
            cluster: self.cluster,
            host: self.host@,
            role: self.role,
            version: self.version@,
            state: self.state,
            created_at: self.created_at,
            updated_at: self.updated_at,
        }
    }
}

impl Clone for ValidatorNode {
    fn clone(&self) -> (r: Self)
        ensures
            r == *self,
    {
        ValidatorNode {
            id: self.id.clone(),
            cluster_name: self.cluster_name.clone(),
            cluster: self.cluster,
            host: self.host.clone(),
            role: self.role,
            version: self.version.clone(),
            state: self.state,
            created_at: self.created_at,
            updated_at: self.updated_at,
        }
    }
}

impl ValidatorNode {
    /// Register a brand-new node; it always starts in
    /// [`NodeState::Provisioning`] with both timestamps at `now`.
    pub fn new(
        id: NodeId,
        cluster_name: ClusterName,
        cluster: Cluster,
        host: HostAddr,
        role: NodeRole,
        version: ValidatorVersion,
        now: Timestamp,
    ) -> (n: ValidatorNode)
        ensures
            n@ == (NodeView {
                id: id@,
                cluster_name: cluster_name@,
                cluster,
                host: host@,
                role,
                version: version@,
                state: NodeState::Provisioning,
                created_at: now,
                updated_at: now,
            }),
    {
        ValidatorNode {
            id,
            cluster_name,
            cluster,
            host,
            role,
            version,
            state: NodeState::Provisioning,
            created_at: now,
            updated_at: now,
        }
    }

    /// Rebuild a node read back from storage, exactly as it was saved.
    pub fn restore(
        id: NodeId,
        cluster_name: ClusterName,
        cluster: Cluster,
        host: HostAddr,
        role: NodeRole,
        version: ValidatorVersion,
        state: NodeState,
        created_at: Timestamp,
        updated_at: Timestamp,
    ) -> (n: ValidatorNode)
        ensures
            n@ == (NodeView {
                id: id@,
                cluster_name: cluster_name@,
                cluster,
                host: host@,
                role,
                version: version@,
                state,
                created_at,
                updated_at,
            }),
    {
        ValidatorNode { id, cluster_name, cluster, host, role, version, state, created_at, updated_at }
    }

    /// The node id.
    pub fn id(&self) -> (r: &NodeId)
        ensures
            r@ == self@.id,
    {
        &self.id
    }

    /// The cluster label.
    pub fn cluster_name(&self) -> (r: &ClusterName)
        ensures
            r@ == self@.cluster_name,
    {
        &self.cluster_name
    }

    /// The cluster.
    pub fn cluster(&self) -> (r: Cluster)
        ensures
            r == self@.cluster,
    {
        self.cluster
    }

    /// The host address.
    pub fn host(&self) -> (r: &HostAddr)
        ensures
            r@ == self@.host,
    {
        &self.host
    }

    /// The node role.
    pub fn role(&self) -> (r: NodeRole)
        ensures
            r == self@.role,
    {
        self.role
    }

    /// The currently deployed version.
    pub fn version(&self) -> (r: &ValidatorVersion)
        ensures
            r@ == self@.version,
    {
        &self.version
    }

    /// The current lifecycle state.
    pub fn state(&self) -> (r: NodeState)
        ensures
            r == self@.state,
    {
        self.state
    }

    /// When the node was first registered.
    pub fn created_at(&self) -> (r: Timestamp)
        ensures
            r == self@.created_at,
    {
        self.created_at
    }

    /// When the node was last mutated.
    pub fn updated_at(&self) -> (r: Timestamp)
        ensures
            r == self@.updated_at,
    {
        self.updated_at
    }

    /// Attempt a lifecycle transition, enforcing the state machine.
    ///
    /// A legal move sets the state to `next` and the update time to `now`;
    /// an illegal one returns `IllegalTransition` naming both states and
    /// leaves the node untouched.
    pub fn transition_to(&mut self, next: NodeState, now: Timestamp) -> (r: Result<
        (),
        DomainError,
    >)
        ensures
            r is Ok <==> transition_allowed(old(self)@.state, next),
            r is Ok ==> final(self)@ == (NodeView {
                state: next,
                updated_at: now,
                ..old(self)@
            }),
            r is Err ==> *final(self) == *old(self) && r->Err_0 == (DomainError::IllegalTransition {
                from: state_text(old(self)@.state),
                to: state_text(next),
            }),
    {
        if !self.state.can_transition_to(next) {
            return Err(
                DomainError::IllegalTransition { from: self.state.as_str(), to: next.as_str() },
            );
        }
        self.state = next;
        self.updated_at = now;
        Ok(())
    }

    /// Record a new deployed version (used after a successful upgrade saga).
    pub fn set_version(&mut self, version: ValidatorVersion, now: Timestamp)
        ensures
            final(self)@ == (NodeView { version: version@, updated_at: now, ..old(self)@ }),
    {
        self.version = version;
        self.updated_at = now;
    }
}

} // verus!
