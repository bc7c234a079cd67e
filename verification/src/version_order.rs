//! The order of validator versions: lexical, character by character, not by
//! semver precedence ("2.0.9" sorts above "2.0.14").
//!
//! Comparing by Unicode code point gives the same order as comparing the
//! strings' UTF-8 bytes, which is how `String` orders.

use std::cmp::Ordering;

use vstd::prelude::*;
use vstd::std_specs::cmp::PartialOrdSpecImpl;

use crate::ids::ValidatorVersion;
use crate::text::str_chars;

verus! {

/// Lexicographic order of two character sequences, by code point; a proper
/// prefix sorts first.
pub open spec fn lex_order(a: Seq<char>, b: Seq<char>) -> Ordering
    decreases a.len(),
{
    if a.len() == 0 {
        if b.len() == 0 {
            Ordering::Equal
        } else {
            Ordering::Less
        }
    } else if b.len() == 0 {
        Ordering::Greater
    } else if a[0] < b[0] {
        Ordering::Less
    } else if b[0] < a[0] {
        Ordering::Greater
    } else {
        lex_order(a.drop_first(), b.drop_first())
    }
}

/// Dropping a common prefix of length `i` leaves the order unchanged.
proof fn lemma_lex_order_common_prefix(a: Seq<char>, b: Seq<char>, i: int)
    requires
        0 <= i <= a.len(),
        i <= b.len(),
        a.subrange(0, i) == b.subrange(0, i),
    ensures
        lex_order(a, b) == lex_order(a.skip(i), b.skip(i)),
    decreases i,
{
    if i > 0 {
        assert(a[0] == a.subrange(0, i)[0]);
        assert(b[0] == b.subrange(0, i)[0]);
        assert(a.drop_first().subrange(0, i - 1) =~= a.subrange(0, i).drop_first());
        assert(b.drop_first().subrange(0, i - 1) =~= b.subrange(0, i).drop_first());
        lemma_lex_order_common_prefix(a.drop_first(), b.drop_first(), i - 1);
        assert(a.drop_first().skip(i - 1) =~= a.skip(i));
        assert(b.drop_first().skip(i - 1) =~= b.skip(i));
    } else {
        assert(a.skip(0) =~= a);
        assert(b.skip(0) =~= b);
    }
}

/// The length of the longest common prefix of `x` and `y`: below both
/// lengths only where the two differ.
fn first_difference(x: &Vec<char>, y: &Vec<char>) -> (r: (usize, Ghost<int>))
    ensures
        r.1@ == r.0 as int,
        r.0 <= x.len(),
        r.0 <= y.len(),
        x@.subrange(0, r.0 as int) == y@.subrange(0, r.0 as int),
        r.0 < x.len() && r.0 < y.len() ==> x@[r.0 as int] != y@[r.0 as int],
{
    let mut i: usize = 0;
    while i < x.len() && i < y.len()
        invariant
            i <= x.len(),
            i <= y.len(),
            x@.subrange(0, i as int) == y@.subrange(0, i as int),
        decreases x.len() - i,
    {
        if x[i] != y[i] {
            return (i, Ghost(i as int));
        }
        proof {
            assert(x@.subrange(0, i + 1) =~= x@.subrange(0, i as int).push(x@[i as int]));
            assert(y@.subrange(0, i + 1) =~= y@.subrange(0, i as int).push(y@[i as int]));
        }
        i = i + 1;
    }
    (i, Ghost(i as int))
}

/// The lexical order of two versions' texts.
fn version_order(a: &ValidatorVersion, b: &ValidatorVersion) -> (o: Ordering)
    ensures
        o == lex_order(a@, b@),
{
    let x = str_chars(a.as_str());
    let y = str_chars(b.as_str());
    let (i, Ghost(at)) = first_difference(&x, &y);
    proof {
        lemma_lex_order_common_prefix(x@, y@, at);
    }
    if i < x.len() && i < y.len() {
        let c: char = x[i];
        let d: char = y[i];
        proof {
            assert(x@.skip(at)[0] == c);
            assert(y@.skip(at)[0] == d);
        }
        if c < d {
            Ordering::Less
        } else {
            Ordering::Greater
        }
    } else if x.len() == y.len() {
        Ordering::Equal
    } else if i == x.len() {
        Ordering::Less
    } else {
        Ordering::Greater
    }
}

impl PartialOrd for ValidatorVersion {
    fn partial_cmp(&self, other: &Self) -> (r: Option<Ordering>) {
        Some(version_order(self, other))
    }
}

impl PartialOrdSpecImpl for ValidatorVersion {
    open spec fn obeys_partial_cmp_spec() -> bool {
        true
    }

    open spec fn partial_cmp_spec(&self, other: &Self) -> Option<Ordering> {
        Some(lex_order(self@, other@))
    }
}

} // verus!
