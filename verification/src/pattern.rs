//! Pattern matching, as the `regex` crate does it.
//!
//! Trusted: the one function here calls `regex`, and nothing is proved of it.
//! What a pattern captures in a text takes the whole of the crate to compute,
//! and depends on the pattern and the text alone: it has a name here in place
//! of a definition.

use regex::Regex;
use vstd::prelude::*;

verus! {

/// What the capture group with the number `group` holds in the leftmost match
/// of `pattern` in `text`. `None` where the pattern is not a valid expression,
/// where it matches nowhere in the text, and where the group took no part in
/// the match.
pub uninterp spec fn captured(pattern: Seq<char>, text: Seq<char>, group: int) -> Option<Seq<char>>;

/// Calls `Regex::new`, `Regex::captures` and `Captures::get`, and copies the
/// matched part of the text.
///
/// Claimed of them: only that the result depends on the pattern, the text and
/// the group's number alone.
#[verifier::external_body]
pub(crate) fn capture(pattern: &str, text: &str, group: usize) -> (r: Option<String>)
    ensures
        r is Some <==> captured(pattern@, text@, group as int) is Some,
        r matches Some(found) ==> captured(pattern@, text@, group as int) == Some(found@),
{
    let expression = Regex::new(pattern).ok()?;
    let groups = expression.captures(text)?;
    Some(groups.get(group)?.as_str().to_string())
}

} // verus!
