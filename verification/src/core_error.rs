//! Error taxonomy of the orchestration core: failures of outbound ports and
//! the errors surfaced to API callers.

use vstd::prelude::*;

use vstd::string::StringExecFns;
use crate::error::{domain_error_code, domain_error_text, error_code_text, DomainError};

verus! {

/// Failures returned by outbound ports (adapters).
#[derive(Debug, PartialEq, Eq)]
pub enum PortError {
    /// The dependency is temporarily unavailable (retryable).
    Unavailable(String),
    /// The operation exceeded its deadline (retryable).
    Timeout(String),
    /// The dependency rejected the request (not retryable).
    Rejected(String),
    /// An unexpected internal adapter error (not retryable).
    Internal(String),
}

impl Clone for PortError {
    fn clone(&self) -> (r: Self)
        ensures
            r == *self,
    {
        match self {
            PortError::Unavailable(m) => PortError::Unavailable(m.clone()),
            PortError::Timeout(m) => PortError::Timeout(m.clone()),
            PortError::Rejected(m) => PortError::Rejected(m.clone()),
            PortError::Internal(m) => PortError::Internal(m.clone()),
        }
    }
}

/// Transient failures (unavailable, timed out) may succeed when retried.
pub open spec fn port_error_retryable(e: PortError) -> bool {
    e is Unavailable || e is Timeout
}

pub open spec fn port_error_code(e: PortError) -> &'static str {
    match e {
        PortError::Unavailable(_) => "UNAVAILABLE",
        PortError::Timeout(_) => "TIMEOUT",
        PortError::Rejected(_) => "REJECTED",
        PortError::Internal(_) => "INTERNAL",
    }
}

pub open spec fn port_error_text(e: PortError) -> Seq<char> {
    match e {
        PortError::Unavailable(m) => "dependency unavailable: "@ + m@,
        PortError::Timeout(m) => "operation timed out: "@ + m@,
        PortError::Rejected(m) => "rejected: "@ + m@,
        PortError::Internal(m) => "internal error: "@ + m@,
    }
}

impl PortError {
    /// Whether a retry could plausibly succeed.
    pub fn is_retryable(&self) -> (b: bool)
        ensures
            b == port_error_retryable(*self),
    {
        match self {
            PortError::Unavailable(_) | PortError::Timeout(_) => true,
            _ => false,
        }
    }

    /// Stable wire code.
    pub fn code(&self) -> (c: &'static str)
        ensures
            c == port_error_code(*self),
    {
        match self {
            PortError::Unavailable(_) => "UNAVAILABLE",
            PortError::Timeout(_) => "TIMEOUT",
            PortError::Rejected(_) => "REJECTED",
            PortError::Internal(_) => "INTERNAL",
        }
    }

    /// The human-readable message (what `Display` would print).
    pub fn message(&self) -> (m: String)
        ensures
            m@ == port_error_text(*self),
    {
        let mut out = String::new();
        match self {
            PortError::Unavailable(m) => {
                out.append("dependency unavailable: ");
                out.append(m.as_str());
            },
            PortError::Timeout(m) => {
                out.append("operation timed out: ");
                out.append(m.as_str());
            },
            PortError::Rejected(m) => {
                out.append("rejected: ");
                out.append(m.as_str());
            },
            PortError::Internal(m) => {
                out.append("internal error: ");
                out.append(m.as_str());
            },
        }
        proof {
            assert(out@ =~= port_error_text(*self));
        }
        out
    }
}

/// Errors surfaced by the application core to its callers (the API layer).
#[derive(Debug, PartialEq, Eq)]
pub enum CoreError {
    /// A domain invariant was violated (bad input or illegal transition).
    Domain(DomainError),
    /// An outbound port failed.
    Port(PortError),
    /// The requested entity does not exist.
    NotFound(String),
    /// A request was throttled by admission control.
    Throttled,
    /// The circuit breaker is open for the targeted dependency.
    CircuitOpen,
}

impl Clone for CoreError {
    fn clone(&self) -> (r: Self)
        ensures
            r == *self,
    {
        match self {
            CoreError::Domain(e) => CoreError::Domain(e.clone()),
            CoreError::Port(e) => CoreError::Port(e.clone()),
            CoreError::NotFound(m) => CoreError::NotFound(m.clone()),
            CoreError::Throttled => CoreError::Throttled,
            CoreError::CircuitOpen => CoreError::CircuitOpen,
        }
    }
}

pub open spec fn core_error_code(e: CoreError) -> &'static str {
    match e {
        CoreError::Domain(d) => error_code_text(domain_error_code(d)),
        CoreError::Port(p) => port_error_code(p),
        CoreError::NotFound(_) => "NOT_FOUND",
        CoreError::Throttled => "THROTTLED",
        CoreError::CircuitOpen => "CIRCUIT_OPEN",
    }
}

pub open spec fn core_error_text(e: CoreError) -> Seq<char> {
    match e {
        CoreError::Domain(d) => domain_error_text(d),
        CoreError::Port(p) => port_error_text(p),
        CoreError::NotFound(m) => "not found: "@ + m@,
        CoreError::Throttled => "request throttled"@,
        CoreError::CircuitOpen => "circuit open"@,
    }
}

impl CoreError {
    /// Stable wire code surfaced to API clients.
    pub fn code(&self) -> (c: &'static str)
        ensures
            c == core_error_code(*self),
    {
        match self {
            CoreError::Domain(e) => e.code().as_str(),
            CoreError::Port(e) => e.code(),
            CoreError::NotFound(_) => "NOT_FOUND",
            CoreError::Throttled => "THROTTLED",
            CoreError::CircuitOpen => "CIRCUIT_OPEN",
        }
    }

    /// The human-readable message (what `Display` would print).
    pub fn message(&self) -> (m: String)
        ensures
            m@ == core_error_text(*self),
    {
        match self {
            CoreError::Domain(e) => e.message(),
            CoreError::Port(e) => e.message(),
            CoreError::NotFound(what) => {
                let mut out = String::new();
                out.append("not found: ");
                out.append(what.as_str());
                proof {
                    assert(out@ =~= core_error_text(*self));
                }
                out
            },
            CoreError::Throttled => String::from_str("request throttled"),
            CoreError::CircuitOpen => String::from_str("circuit open"),
        }
    }
}

} // verus!
