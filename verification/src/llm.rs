//! The language-model advisor's decisions: its configuration, its error
//! taxonomy, the prompt it sends, and how a completion is read back. The
//! HTTP exchange itself happens outside the library; any failure falls back
//! to the heuristic advisor.

use vstd::prelude::*;

use crate::advisor::{recommended_action_text, Recommendation, Urgency};
use crate::node::{role_text, state_text, ValidatorNode};
use crate::retry::RetryPolicy;
use crate::text::{is_blank, str_is_blank};
use crate::time::Delay;
use vstd::string::StringExecFns;

verus! {

/// The system prompt sent with every request.
pub const SYSTEM_PROMPT: &'static str = "You are a Solana validator SRE. Given a node's state and an operator's context note, recommend the single safest next operational action and briefly justify it. Be concise.";

/// Connection and behaviour settings of the language-model advisor.
#[derive(Debug, PartialEq, Eq)]
pub struct LlmConfig {
    /// Chat-completions endpoint URL.
    pub endpoint: String,
    /// Model identifier.
    pub model: String,
    /// Bearer API key. Empty disables the network path.
    pub api_key: String,
    /// Per-attempt deadline.
    pub timeout: Delay,
    /// Total attempts (including the first).
    pub max_retries: u32,
}

impl Default for LlmConfig {
    fn default() -> (c: LlmConfig)
        ensures
            c.endpoint@ == "https://api.openai.com/v1/chat/completions"@,
            c.model@ == "gpt-4o-mini"@,
            c.api_key@.len() == 0,
            c.timeout.spec_nanos() == 4_000_000_000,
            c.max_retries == 2,
    {
        LlmConfig {
            endpoint: String::from_str("https://api.openai.com/v1/chat/completions"),
            model: String::from_str("gpt-4o-mini"),
            api_key: String::new(),
            timeout: Delay::from_secs(4),
            max_retries: 2,
        }
    }
}

/// Why a language-model call did not produce a recommendation.
#[derive(Debug, PartialEq, Eq)]
pub enum LlmError {
    /// No API key is configured.
    Disabled,
    /// An attempt exceeded its deadline.
    Timeout,
    /// The provider failed or answered unusably.
    Provider(String),
}

pub open spec fn llm_error_reason(e: LlmError) -> Seq<char> {
    match e {
        LlmError::Disabled => "disabled (no api key)"@,
        LlmError::Timeout => "timed out"@,
        LlmError::Provider(m) => "provider error: "@ + m@,
    }
}

impl LlmError {
    /// Whether another attempt could succeed: timeouts and provider errors
    /// may be transient, a missing key is not.
    pub fn is_retryable(&self) -> (b: bool)
        ensures
            b == !(*self is Disabled),
    {
        match self {
            LlmError::Timeout | LlmError::Provider(_) => true,
            LlmError::Disabled => false,
        }
    }

    /// Why the advisor fell back to the heuristic.
    pub fn reason(&self) -> (m: String)
        ensures
            m@ == llm_error_reason(*self),
    {
        match self {
            LlmError::Disabled => String::from_str("disabled (no api key)"),
            LlmError::Timeout => String::from_str("timed out"),
            LlmError::Provider(msg) => {
                let mut out = String::from_str("provider error: ");
                out.append(msg.as_str());
                out
            },
        }
    }
}

/// How `{:?}` prints an urgency.
pub open spec fn urgency_debug_text(u: Urgency) -> Seq<char> {
    match u {
        Urgency::Low => "Low"@,
        Urgency::Medium => "Medium"@,
        Urgency::High => "High"@,
    }
}

/// The user message: the node, the operator's context, and the heuristic's
/// suggestion to confirm or refine.
pub open spec fn user_prompt_text(
    id: Seq<char>,
    role: Seq<char>,
    state: Seq<char>,
    version: Seq<char>,
    context: Seq<char>,
    action: Seq<char>,
    urgency: Seq<char>,
    rationale: Seq<char>,
) -> Seq<char> {
    "Node "@ + id + " (role="@ + role + ", state="@ + state + ", version="@ + version
        + "). Context: \""@ + context + "\". A deterministic heuristic suggests: "@ + action
        + " ("@ + urgency + ") — "@ + rationale + ". Confirm or refine."@
}

/// The language-model advisor's decisions.
#[derive(Debug, Clone, Copy, Default)]
pub struct LlmAdvisor;

impl LlmAdvisor {
    /// The network path is used only when an API key is configured.
    pub fn check_enabled(config: &LlmConfig) -> (r: Result<(), LlmError>)
        ensures
            r is Ok <==> config.api_key@.len() > 0,
            r is Err ==> r->Err_0 == LlmError::Disabled,
    {
        if config.api_key.as_str().is_empty() {
            Err(LlmError::Disabled)
        } else {
            Ok(())
        }
    }

    /// The retry policy of model calls: at least one attempt, backing off
    /// from 100 ms up to 2 s.
    pub fn retry_policy(config: &LlmConfig) -> (p: RetryPolicy)
        ensures
            p.max_attempts == if config.max_retries >= 1 {
                config.max_retries
            } else {
                1
            },
            p.base_delay.spec_nanos() == 100_000_000,
            p.max_delay.spec_nanos() == 2_000_000_000,
    {
        RetryPolicy::new(config.max_retries, Delay::from_millis(100), Delay::from_secs(2))
    }

    /// The user message for `node` and `context`, quoting the heuristic's
    /// recommendation `hint`.
    pub fn user_prompt(node: &ValidatorNode, context: &str, hint: &Recommendation) -> (s: String)
        ensures
            s@ == user_prompt_text(
                node@.id,
                role_text(node@.role)@,
                state_text(node@.state)@,
                node@.version,
                context@,
                recommended_action_text(hint.action)@,
                urgency_debug_text(hint.urgency),
                hint.rationale@,
            ),
    {
        let mut out = String::from_str("Node ");
        out.append(node.id().as_str());
        out.append(" (role=");
        out.append(node.role().as_str());
        out.append(", state=");
        out.append(node.state().as_str());
        out.append(", version=");
        out.append(node.version().as_str());
        out.append("). Context: \"");
        out.append(context);
        out.append("\". A deterministic heuristic suggests: ");
        out.append(hint.action.as_str());
        out.append(" (");
        let urgency: &str = match hint.urgency {
            Urgency::Low => "Low",
            Urgency::Medium => "Medium",
            Urgency::High => "High",
        };
        out.append(urgency);
        out.append(") — ");
        out.append(hint.rationale.as_str());
        out.append(". Confirm or refine.");
        proof {
            assert(out@ =~= user_prompt_text(
                node@.id,
                role_text(node@.role)@,
                state_text(node@.state)@,
                node@.version,
                context@,
                recommended_action_text(hint.action)@,
                urgency_debug_text(hint.urgency),
                hint.rationale@,
            ));
        }
        out
    }

    /// Read the completion out of the response's choices: the first
    /// choice's content, unless there is none or it is blank.
    pub fn completion_text(choices: Vec<String>) -> (r: Result<String, LlmError>)
        ensures
            choices@.len() > 0 && !is_blank(choices@[0]@) ==> (r matches Ok(t) && t@
                == choices@[0]@),
            choices@.len() == 0 || is_blank(choices@[0]@) ==> (r matches Err(LlmError::Provider(m))
                && m@ == "empty completion"@),
    {
        if choices.len() > 0 && !str_is_blank(choices[0].as_str()) {
            Ok(choices[0].clone())
        } else {
            Err(LlmError::Provider(String::from_str("empty completion")))
        }
    }
}

} // verus!
