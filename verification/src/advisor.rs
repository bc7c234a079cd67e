//! Deterministic, always-available ops advisor: ordered rules over a node's
//! lifecycle state, its role, and a free-text context signal.

use vstd::prelude::*;

use crate::node::{NodeRole, NodeState, ValidatorNode};
use crate::text::{ascii_lower_seq, ascii_lowercase_chars, chars_contain_str, contains_seq};
use vstd::string::StringExecFns;

verus! {

/// The concrete next action the advisor recommends.
#[derive(Debug, Clone, Copy, PartialEq, Eq, Structural)]
pub enum RecommendedAction {
    /// No action; the node is healthy or already progressing.
    Hold,
    /// A human (or automation) should investigate before acting.
    Investigate,
    /// Tune the host OS (lag attributable to resource pressure).
    TuneHost,
    /// Fail the staked identity over to a hot spare.
    Failover,
    /// Roll the node forward to a newer validator version.
    Upgrade,
    /// Drain and decommission the node.
    Decommission,
}

pub open spec fn recommended_action_text(a: RecommendedAction) -> &'static str {
    match a {
        RecommendedAction::Hold => "hold",
        RecommendedAction::Investigate => "investigate",
        RecommendedAction::TuneHost => "tune_host",
        RecommendedAction::Failover => "failover",
        RecommendedAction::Upgrade => "upgrade",
        RecommendedAction::Decommission => "decommission",
    }
}

impl RecommendedAction {
    /// Stable wire string.
    pub fn as_str(self) -> (s: &'static str)
        ensures
            s == recommended_action_text(self),
    {
        match self {
            RecommendedAction::Hold => "hold",
            RecommendedAction::Investigate => "investigate",
            RecommendedAction::TuneHost => "tune_host",
            RecommendedAction::Failover => "failover",
            RecommendedAction::Upgrade => "upgrade",
            RecommendedAction::Decommission => "decommission",
        }
    }
}

/// How urgently the recommendation should be acted on.
#[derive(Debug, Clone, Copy, PartialEq, Eq, Structural)]
pub enum Urgency {
    /// Informational; act at leisure.
    Low,
    /// Act within the next maintenance window.
    Medium,
    /// Act now — stake/rewards at risk.
    High,
}

pub open spec fn urgency_text(u: Urgency) -> &'static str {
    match u {
        Urgency::Low => "low",
        Urgency::Medium => "medium",
        Urgency::High => "high",
    }
}

impl Urgency {
    /// Stable wire string.
    pub fn as_str(self) -> (s: &'static str)
        ensures
            s == urgency_text(self),
    {
        match self {
            Urgency::Low => "low",
            Urgency::Medium => "medium",
            Urgency::High => "high",
        }
    }
}

/// A structured recommendation.
#[derive(Debug, PartialEq, Eq)]
pub struct Recommendation {
    /// The recommended action.
    pub action: RecommendedAction,
    /// How urgent it is.
    pub urgency: Urgency,
    /// Human-readable justification.
    pub rationale: String,
}

/// The delinquency signal: the node's state, or the context mentioning it.
pub open spec fn delinquent_signal(state: NodeState, ctx: Seq<char>) -> bool {
    state == NodeState::Delinquent || contains_seq(ctx, "delinquent"@) || contains_seq(
        ctx,
        "not voting"@,
    )
}

/// The upgrade signal in the context.
pub open spec fn upgrade_signal(ctx: Seq<char>) -> bool {
    contains_seq(ctx, "upgrade"@) || contains_seq(ctx, "new version"@) || contains_seq(ctx, "cve"@)
}

/// The lag signal in the context.
pub open spec fn lag_signal(ctx: Seq<char>) -> bool {
    contains_seq(ctx, "lag"@) || contains_seq(ctx, "behind"@) || contains_seq(ctx, "slow"@)
}

/// The advisor's rules, in order of severity, over the lower-cased context
/// `ctx`: a failed node needs investigating; delinquency fails a voting node
/// over (and only investigates any other); an upgrade signal asks for an
/// upgrade (urgently when a CVE is mentioned); lag on an active node asks
/// for host tuning; anything else holds.
pub open spec fn recommend_spec(state: NodeState, role: NodeRole, ctx: Seq<char>) -> (
    RecommendedAction,
    Urgency,
    Seq<char>,
) {
    if state == NodeState::Failed {
        (
            RecommendedAction::Investigate,
            Urgency::High,
            "node is in a terminal Failed state; inspect provisioning/bootstrap logs before retrying"@,
        )
    } else if delinquent_signal(state, ctx) {
        if role == NodeRole::Voting {
            (
                RecommendedAction::Failover,
                Urgency::High,
                "voting node is delinquent; fail the staked identity over to a hot spare to stop missing votes"@,
            )
        } else {
            (
                RecommendedAction::Investigate,
                Urgency::Medium,
                "non-voting node is delinquent; no stake at risk, investigate connectivity"@,
            )
        }
    } else if upgrade_signal(ctx) {
        (
            RecommendedAction::Upgrade,
            if contains_seq(ctx, "cve"@) {
                Urgency::High
            } else {
                Urgency::Medium
            },
            "a newer/secure version is indicated; run the zero-downtime upgrade saga (drain → restart → catch up)"@,
        )
    } else if lag_signal(ctx) && state == NodeState::Active {
        (
            RecommendedAction::TuneHost,
            Urgency::Medium,
            "node is active but lagging; apply host tuning (hugepages, CPU governor, NIC) and re-evaluate"@,
        )
    } else if state == NodeState::Provisioning || state == NodeState::Bootstrapping || state
        == NodeState::CatchingUp {
        (
            RecommendedAction::Hold,
            Urgency::Low,
            "node is mid-lifecycle; allow the in-flight run to complete before intervening"@,
        )
    } else if state == NodeState::Draining || state == NodeState::Decommissioned {
        (
            RecommendedAction::Hold,
            Urgency::Low,
            "node is draining/decommissioned; no action required"@,
        )
    } else {
        (RecommendedAction::Hold, Urgency::Low, "node is active and within tolerances; hold"@)
    }
}

/// A pure recommender driven by the node's state and a context signal.
#[derive(Debug, Clone, Copy, Default)]
pub struct HeuristicAdvisor;

fn recommendation(action: RecommendedAction, urgency: Urgency, rationale: &str) -> (r:
    Recommendation)
    ensures
        r.action == action,
        r.urgency == urgency,
        r.rationale@ == rationale@,
{
    Recommendation { action, urgency, rationale: String::from_str(rationale) }
}

impl HeuristicAdvisor {
    /// Construct the advisor.
    pub fn new() -> HeuristicAdvisor {
        HeuristicAdvisor
    }

    /// Produce a structured recommendation for `node` given `context`
    /// (matched case-insensitively for ASCII letters).
    pub fn recommend(&self, node: &ValidatorNode, context: &str) -> (r: Recommendation)
        ensures
            (r.action, r.urgency, r.rationale@) == recommend_spec(
                node@.state,
                node@.role,
                ascii_lower_seq(context@),
            ),
    {
        let ctx = ascii_lowercase_chars(context);
        let state = node.state();
        if state == NodeState::Failed {
            return recommendation(
                RecommendedAction::Investigate,
                Urgency::High,
                "node is in a terminal Failed state; inspect provisioning/bootstrap logs before retrying",
            );
        }
        let delinquent = state == NodeState::Delinquent || chars_contain_str(&ctx, "delinquent")
            || chars_contain_str(&ctx, "not voting");
        if delinquent {
            if node.role() == NodeRole::Voting {
                return recommendation(
                    RecommendedAction::Failover,
                    Urgency::High,
                    "voting node is delinquent; fail the staked identity over to a hot spare to stop missing votes",
                );
            } else {
                return recommendation(
                    RecommendedAction::Investigate,
                    Urgency::Medium,
                    "non-voting node is delinquent; no stake at risk, investigate connectivity",
                );
            }
        }
        let cve = chars_contain_str(&ctx, "cve");
        if chars_contain_str(&ctx, "upgrade") || chars_contain_str(&ctx, "new version") || cve {
            return recommendation(
                RecommendedAction::Upgrade,
                if cve {
                    Urgency::High
                } else {
                    Urgency::Medium
                },
                "a newer/secure version is indicated; run the zero-downtime upgrade saga (drain → restart → catch up)",
            );
        }
        if (chars_contain_str(&ctx, "lag") || chars_contain_str(&ctx, "behind")
            || chars_contain_str(&ctx, "slow")) && state.is_healthy() {
            return recommendation(
                RecommendedAction::TuneHost,
                Urgency::Medium,
                "node is active but lagging; apply host tuning (hugepages, CPU governor, NIC) and re-evaluate",
            );
        }
        match state {
            NodeState::Provisioning | NodeState::Bootstrapping | NodeState::CatchingUp => {
                return recommendation(
                    RecommendedAction::Hold,
                    Urgency::Low,
                    "node is mid-lifecycle; allow the in-flight run to complete before intervening",
                );
            },
            _ => {},
        }
        match state {
            NodeState::Draining | NodeState::Decommissioned => {
                return recommendation(
                    RecommendedAction::Hold,
                    Urgency::Low,
                    "node is draining/decommissioned; no action required",
                );
            },
            _ => {},
        }
        recommendation(
            RecommendedAction::Hold,
            Urgency::Low,
            "node is active and within tolerances; hold",
        )
    }
}

/// A failed node is never acted on automatically, and a voting node with a
/// delinquency signal is always failed over urgently.
pub proof fn lemma_advisor_priorities(state: NodeState, role: NodeRole, ctx: Seq<char>)
    ensures
        state == NodeState::Failed ==> recommend_spec(state, role, ctx).0
            == RecommendedAction::Investigate,
        state != NodeState::Failed && delinquent_signal(state, ctx) && role == NodeRole::Voting
            ==> recommend_spec(state, role, ctx).0 == RecommendedAction::Failover && recommend_spec(
            state,
            role,
            ctx,
        ).1 == Urgency::High,
        recommend_spec(state, role, ctx).0 == RecommendedAction::Hold ==> recommend_spec(
            state,
            role,
            ctx,
        ).1 == Urgency::Low,
{
}

/// The advisor's rules, by severity, over the (lower-cased) context `ctx`:
/// a failed node is always investigated, urgently; otherwise delinquency (the
/// node's state, or "delinquent" / "not voting" in the context) fails a
/// voting node over and only investigates any other; otherwise "upgrade",
/// "new version" or "cve" asks for an upgrade, urgent exactly when a CVE is
/// named; otherwise "lag", "behind" or "slow" on an active node asks for
/// host tuning; with no signal the advice is to hold.
pub proof fn lemma_advisor_rules(state: NodeState, role: NodeRole, ctx: Seq<char>)
    ensures
        state == NodeState::Failed ==> recommend_spec(state, role, ctx).0
            == RecommendedAction::Investigate && recommend_spec(state, role, ctx).1 == Urgency::High,
        state != NodeState::Failed && (state == NodeState::Delinquent || contains_seq(
            ctx,
            "delinquent"@,
        ) || contains_seq(ctx, "not voting"@)) ==> recommend_spec(state, role, ctx).0 == if role
            == NodeRole::Voting {
            RecommendedAction::Failover
        } else {
            RecommendedAction::Investigate
        } && recommend_spec(state, role, ctx).1 == if role == NodeRole::Voting {
            Urgency::High
        } else {
            Urgency::Medium
        },
        state != NodeState::Failed && state != NodeState::Delinquent && !contains_seq(
            ctx,
            "delinquent"@,
        ) && !contains_seq(ctx, "not voting"@) && (contains_seq(ctx, "upgrade"@) || contains_seq(
            ctx,
            "new version"@,
        ) || contains_seq(ctx, "cve"@)) ==> recommend_spec(state, role, ctx).0
            == RecommendedAction::Upgrade && (recommend_spec(state, role, ctx).1 == Urgency::High
            <==> contains_seq(ctx, "cve"@)),
        state == NodeState::Active && !contains_seq(ctx, "delinquent"@) && !contains_seq(
            ctx,
            "not voting"@,
        ) && !contains_seq(ctx, "upgrade"@) && !contains_seq(ctx, "new version"@) && !contains_seq(
            ctx,
            "cve"@,
        ) && (contains_seq(ctx, "lag"@) || contains_seq(ctx, "behind"@) || contains_seq(
            ctx,
            "slow"@,
        )) ==> recommend_spec(state, role, ctx).0 == RecommendedAction::TuneHost
            && recommend_spec(state, role, ctx).1 == Urgency::Medium,
        state != NodeState::Failed && state != NodeState::Delinquent && !contains_seq(
            ctx,
            "delinquent"@,
        ) && !contains_seq(ctx, "not voting"@) && !contains_seq(ctx, "upgrade"@) && !contains_seq(
            ctx,
            "new version"@,
        ) && !contains_seq(ctx, "cve"@) && !contains_seq(ctx, "lag"@) && !contains_seq(
            ctx,
            "behind"@,
        ) && !contains_seq(ctx, "slow"@) ==> recommend_spec(state, role, ctx).0
            == RecommendedAction::Hold && recommend_spec(state, role, ctx).1 == Urgency::Low,
{
}

} // verus!
