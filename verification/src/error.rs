//! Domain error type shared across the type layer.

use vstd::prelude::*;

use crate::text::{decimal, push_decimal, push_signed_decimal, signed_decimal};

verus! {

/// Stable, machine-readable error codes surfaced to API clients.
#[derive(Debug, Clone, Copy, PartialEq, Eq, Structural)]
pub enum ErrorCode {
    /// A node identity / value failed validation on construction.
    InvalidNode,
    /// A field was empty when a non-empty value was required.
    Empty,
    /// A string field exceeded its maximum length.
    TooLong,
    /// A numeric field was outside its permitted range.
    OutOfRange,
    /// A lifecycle transition was not permitted by the state machine.
    IllegalTransition,
}

pub open spec fn error_code_text(c: ErrorCode) -> &'static str {
    match c {
        ErrorCode::InvalidNode => "INVALID_NODE",
        ErrorCode::Empty => "EMPTY",
        ErrorCode::TooLong => "TOO_LONG",
        ErrorCode::OutOfRange => "OUT_OF_RANGE",
        ErrorCode::IllegalTransition => "ILLEGAL_TRANSITION",
    }
}

impl ErrorCode {
    /// The stable string code used on the wire.
    pub fn as_str(self) -> (s: &'static str)
        ensures
            s == error_code_text(self),
    {
        match self {
            ErrorCode::InvalidNode => "INVALID_NODE",
            ErrorCode::Empty => "EMPTY",
            ErrorCode::TooLong => "TOO_LONG",
            ErrorCode::OutOfRange => "OUT_OF_RANGE",
            ErrorCode::IllegalTransition => "ILLEGAL_TRANSITION",
        }
    }
}

/// Errors produced while constructing or transitioning domain values.
#[allow(inconsistent_fields)]
#[derive(Debug, PartialEq, Eq)]
pub enum DomainError {
    /// A required string field was empty.
    Empty {
        /// The offending field name.
        field: &'static str,
    },
    /// A string field was longer than allowed.
    TooLong {
        /// The offending field name.
        field: &'static str,
        /// The configured maximum length.
        max: usize,
        /// The actual length supplied.
        got: usize,
    },
    /// A numeric field was outside its permitted range.
    OutOfRange {
        /// The offending field name.
        field: &'static str,
        /// Inclusive lower bound.
        min: i64,
        /// Inclusive upper bound.
        max: i64,
        /// The actual value supplied.
        got: i64,
    },
    /// A lifecycle transition violated the state machine.
    IllegalTransition {
        /// The current state name.
        from: &'static str,
        /// The attempted target state name.
        to: &'static str,
    },
}

impl Clone for DomainError {
    fn clone(&self) -> (r: Self)
        ensures
            r == *self,
    {
        match self {
            DomainError::Empty { field } => DomainError::Empty { field },
            DomainError::TooLong { field, max, got } => DomainError::TooLong {
                field,
                max: *max,
                got: *got,
            },
            DomainError::OutOfRange { field, min, max, got } => DomainError::OutOfRange {
                field,
                min: *min,
                max: *max,
                got: *got,
            },
            DomainError::IllegalTransition { from, to } => DomainError::IllegalTransition {
                from,
                to,
            },
        }
    }
}

pub open spec fn domain_error_code(e: DomainError) -> ErrorCode {
    match e {
        DomainError::Empty { .. } => ErrorCode::Empty,
        DomainError::TooLong { .. } => ErrorCode::TooLong,
        DomainError::OutOfRange { .. } => ErrorCode::OutOfRange,
        DomainError::IllegalTransition { .. } => ErrorCode::IllegalTransition,
    }
}

/// The human-readable message of a domain error.
pub open spec fn domain_error_text(e: DomainError) -> Seq<char> {
    match e {
        DomainError::Empty { field } => field@ + " must not be empty"@,
        DomainError::TooLong { field, max, got } => field@ + " must be at most "@ + decimal(
            max as nat,
        ) + " characters, got "@ + decimal(got as nat),
        DomainError::OutOfRange { field, min, max, got } => field@ + " must be in ["@
            + signed_decimal(min as int) + ", "@ + signed_decimal(max as int) + "], got "@
            + signed_decimal(got as int),
        DomainError::IllegalTransition { from, to } => "illegal transition from "@ + from@
            + " to "@ + to@,
    }
}

impl DomainError {
    /// Map the error to its stable [`ErrorCode`].
    pub fn code(&self) -> (c: ErrorCode)
        ensures
            c == domain_error_code(*self),
    {
        match self {
            DomainError::Empty { .. } => ErrorCode::Empty,
            DomainError::TooLong { .. } => ErrorCode::TooLong,
            DomainError::OutOfRange { .. } => ErrorCode::OutOfRange,
            DomainError::IllegalTransition { .. } => ErrorCode::IllegalTransition,
        }
    }

    /// The human-readable message (what `Display` would print).
    pub fn message(&self) -> (m: String)
        ensures
            m@ == domain_error_text(*self),
    {
        let mut out = String::new();
        match self {
            DomainError::Empty { field } => {
                out.append(field);
                out.append(" must not be empty");
            },
            DomainError::TooLong { field, max, got } => {
                out.append(field);
                out.append(" must be at most ");
                push_decimal(&mut out, *max as u128);
                out.append(" characters, got ");
                push_decimal(&mut out, *got as u128);
            },
            DomainError::OutOfRange { field, min, max, got } => {
                out.append(field);
                out.append(" must be in [");
                push_signed_decimal(&mut out, *min);
                out.append(", ");
                push_signed_decimal(&mut out, *max);
                out.append("], got ");
                push_signed_decimal(&mut out, *got);
            },
            DomainError::IllegalTransition { from, to } => {
                out.append("illegal transition from ");
                out.append(from);
                out.append(" to ");
                out.append(to);
            },
        }
        proof {
            assert(out@ =~= domain_error_text(*self));
        }
        out
    }
}

} // verus!
