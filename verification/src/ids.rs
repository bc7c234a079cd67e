//! Validated identity and value newtypes.
//!
//! Each newtype validates on construction so that, once you hold one, its
//! invariants hold everywhere downstream.

use vstd::prelude::*;

use crate::error::DomainError;
use vstd::string::StringExecFns;
use crate::text::{
    is_unicode_whitespace,
    decimal, hex_fixed, is_blank, lemma_hex_fixed_len, push_decimal, push_hex_fixed, str_is_blank,
    utf8_len,
};

verus! {

/// Maximum length of a node identifier (bytes).
pub const MAX_NODE_ID_LEN: usize = 64;

/// Maximum length of a cluster name (bytes).
pub const MAX_CLUSTER_NAME_LEN: usize = 32;

/// Maximum length of a host address (bytes).
pub const MAX_HOST_ADDR_LEN: usize = 253;

/// The error, if any, that validating `raw` as the text field `field` yields:
/// blank text is `Empty`; text longer than `max` bytes (when a maximum is
/// given) is `TooLong`.
pub open spec fn text_error(raw: Seq<char>, field: &'static str, max: Option<usize>) -> Option<
    DomainError,
> {
    if is_blank(raw) {
        Some(DomainError::Empty { field })
    } else if max is Some && utf8_len(raw) > max->0 {
        Some(DomainError::TooLong { field, max: max->0, got: utf8_len(raw) })
    } else {
        None
    }
}

/// The outcome of validating `raw`: `Ok(value)` carrying exactly `raw`'s text,
/// or the error [`text_error`] names.
pub open spec fn validated<T: View<V = Seq<char>>>(
    r: Result<T, DomainError>,
    raw: Seq<char>,
    field: &'static str,
    max: Option<usize>,
) -> bool {
    match r {
        Ok(v) => text_error(raw, field, max) is None && v@ == raw,
        Err(e) => text_error(raw, field, max) == Some(e),
    }
}

/// Validate `raw` and copy it into an owned string.
fn check_text(raw: &str, field: &'static str, max: Option<usize>) -> (r: Result<
    String,
    DomainError,
>)
    ensures
        validated(r, raw@, field, max),
{
    if str_is_blank(raw) {
        return Err(DomainError::Empty { field });
    }
    let len: usize = raw.len();
    match max {
        Some(m) => {
            if len > m {
                return Err(DomainError::TooLong { field, max: m, got: len });
            }
        },
        None => {},
    }
    Ok(String::from_str(raw))
}

/// Opaque, validated identifier for a validator node within the fleet.
#[derive(Debug, PartialEq, Eq, Hash, PartialOrd, Ord)]
pub struct NodeId(String);

impl View for NodeId {
    type V = Seq<char>;

    closed spec fn view(&self) -> Seq<char> {
        self.0@
    }
}

impl Clone for NodeId {
    fn clone(&self) -> (r: Self)
        ensures
            r == *self,
    {
        NodeId(self.0.clone())
    }
}

impl NodeId {
    /// Construct a node id, rejecting blank or over-long (more than
    /// [`MAX_NODE_ID_LEN`] bytes) values.
    pub fn new(raw: &str) -> (r: Result<NodeId, DomainError>)
        ensures
            validated(r, raw@, "node_id", Some(MAX_NODE_ID_LEN)),
    {
        match check_text(raw, "node_id", Some(MAX_NODE_ID_LEN)) {
            Ok(s) => Ok(NodeId(s)),
            Err(e) => Err(e),
        }
    }

    /// Borrow the inner string.
    pub fn as_str(&self) -> (s: &str)
        ensures
            s@ == self@,
    {
        self.0.as_str()
    }

    /// The identifier as an owned string (its display form).
    pub fn to_string(&self) -> (s: String)
        ensures
            s@ == self@,
    {
        self.0.clone()
    }
}

/// A human-readable cluster / region label (e.g. `"eu-central-fiber"`).
#[derive(Debug, PartialEq, Eq, Hash)]
pub struct ClusterName(String);

impl View for ClusterName {
    type V = Seq<char>;

    closed spec fn view(&self) -> Seq<char> {
        self.0@
    }
}

impl Clone for ClusterName {
    fn clone(&self) -> (r: Self)
        ensures
            r == *self,
    {
        ClusterName(self.0.clone())
    }
}

impl ClusterName {
    /// Construct a cluster name, rejecting blank or over-long (more than
    /// [`MAX_CLUSTER_NAME_LEN`] bytes) values.
    pub fn new(raw: &str) -> (r: Result<ClusterName, DomainError>)
        ensures
            validated(r, raw@, "cluster_name", Some(MAX_CLUSTER_NAME_LEN)),
    {
        match check_text(raw, "cluster_name", Some(MAX_CLUSTER_NAME_LEN)) {
            Ok(s) => Ok(ClusterName(s)),
            Err(e) => Err(e),
        }
    }

    /// Borrow the inner string.
    pub fn as_str(&self) -> (s: &str)
        ensures
            s@ == self@,
    {
        self.0.as_str()
    }

    /// The name as an owned string (its display form).
    pub fn to_string(&self) -> (s: String)
        ensures
            s@ == self@,
    {
        self.0.clone()
    }
}

/// A validator client version (free-form semver-ish string, e.g. `"2.0.14"`).
/// Versions order lexically, not by semver precedence.
#[derive(Debug, PartialEq, Eq, Hash, Ord)]
pub struct ValidatorVersion(String);

impl View for ValidatorVersion {
    type V = Seq<char>;

    closed spec fn view(&self) -> Seq<char> {
        self.0@
    }
}

impl Clone for ValidatorVersion {
    fn clone(&self) -> (r: Self)
        ensures
            r == *self,
    {
        ValidatorVersion(self.0.clone())
    }
}

impl ValidatorVersion {
    /// Construct a version, rejecting blank values.
    pub fn new(raw: &str) -> (r: Result<ValidatorVersion, DomainError>)
        ensures
            validated(r, raw@, "version", None),
    {
        match check_text(raw, "version", None) {
            Ok(s) => Ok(ValidatorVersion(s)),
            Err(e) => Err(e),
        }
    }

    /// Borrow the inner string.
    pub fn as_str(&self) -> (s: &str)
        ensures
            s@ == self@,
    {
        self.0.as_str()
    }

    /// The version as an owned string (its display form).
    pub fn to_string(&self) -> (s: String)
        ensures
            s@ == self@,
    {
        self.0.clone()
    }
}

/// A network address (DNS name or IP) for a node host.
#[derive(Debug, PartialEq, Eq, Hash)]
pub struct HostAddr(String);

impl View for HostAddr {
    type V = Seq<char>;

    closed spec fn view(&self) -> Seq<char> {
        self.0@
    }
}

impl Clone for HostAddr {
    fn clone(&self) -> (r: Self)
        ensures
            r == *self,
    {
        HostAddr(self.0.clone())
    }
}

impl HostAddr {
    /// Construct a host address, rejecting blank or over-long (more than
    /// [`MAX_HOST_ADDR_LEN`] bytes) values.
    pub fn new(raw: &str) -> (r: Result<HostAddr, DomainError>)
        ensures
            validated(r, raw@, "host", Some(MAX_HOST_ADDR_LEN)),
    {
        match check_text(raw, "host", Some(MAX_HOST_ADDR_LEN)) {
            Ok(s) => Ok(HostAddr(s)),
            Err(e) => Err(e),
        }
    }

    /// Borrow the inner string.
    pub fn as_str(&self) -> (s: &str)
        ensures
            s@ == self@,
    {
        self.0.as_str()
    }

    /// The address as an owned string (its display form).
    pub fn to_string(&self) -> (s: String)
        ensures
            s@ == self@,
    {
        self.0.clone()
    }
}

/// A Solana slot number.
#[derive(Debug, Clone, Copy, PartialEq, Eq, Hash, PartialOrd, Ord, Structural)]
pub struct Slot(pub u64);

impl Default for Slot {
    fn default() -> (s: Slot)
        ensures
            s.0 == 0,
    {
        Slot(0)
    }
}

impl Slot {
    /// The raw slot value.
    pub fn value(self) -> (v: u64)
        ensures
            v == self.0,
    {
        self.0
    }

    /// The slot in decimal (its display form).
    pub fn to_string(self) -> (s: String)
        ensures
            s@ == decimal(self.0 as nat),
    {
        let mut out = String::new();
        push_decimal(&mut out, self.0 as u128);
        proof {
            assert(out@ =~= decimal(self.0 as nat));
        }
        out
    }
}

/// Identifier for an orchestration run (deployment / upgrade / failover saga).
#[derive(Debug, Clone, Copy, PartialEq, Eq, Hash, PartialOrd, Ord, Structural)]
pub struct RunId(pub u128);

impl RunId {
    /// The raw run value.
    pub fn value(self) -> (v: u128)
        ensures
            v == self.0,
    {
        self.0
    }

    /// The id as 32 zero-padded lower-case hexadecimal digits (its display
    /// form).
    pub fn to_string(self) -> (s: String)
        ensures
            s@ == hex_fixed(self.0 as nat, 32),
            s@.len() == 32,
    {
        let mut out = String::new();
        push_hex_fixed(&mut out, self.0, 32);
        proof {
            assert(out@ =~= hex_fixed(self.0 as nat, 32));
            lemma_hex_fixed_len(self.0 as nat, 32);
        }
        out
    }
}

/// Text validation: an empty or whitespace-only value is refused as empty;
/// a value with any other character is accepted unless a limit is set and
/// its UTF-8 length exceeds it, in which case it is refused as too long,
/// reporting the limit and the length. Spaces, tabs and line breaks are
/// whitespace; ASCII letters, digits, dots, hyphens and underscores are not.
pub proof fn lemma_text_validation(raw: Seq<char>, field: &'static str, max: Option<usize>, c: char)
    ensures
        raw.len() == 0 ==> text_error(raw, field, max) == Some(DomainError::Empty { field }),
        (forall|i: int| 0 <= i < raw.len() ==> is_unicode_whitespace(#[trigger] raw[i]))
            ==> text_error(raw, field, max) == Some(DomainError::Empty { field }),
        (exists|i: int| 0 <= i < raw.len() && !is_unicode_whitespace(#[trigger] raw[i])) ==> {
            &&& (max is None || utf8_len(raw) <= max->0) ==> text_error(raw, field, max) is None
            &&& (max matches Some(m) && utf8_len(raw) > m) ==> text_error(raw, field, max) == Some(
                DomainError::TooLong { field, max: max->0, got: utf8_len(raw) },
            )
        },
        c == ' ' || c == '\t' || c == '\n' || c == '\r' ==> is_unicode_whitespace(c),
        ('a' <= c && c <= 'z') || ('A' <= c && c <= 'Z') || ('0' <= c && c <= '9') || c == '.'
            || c == '-' || c == '_' ==> !is_unicode_whitespace(c),
{
}

} // verus!
