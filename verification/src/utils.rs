//! Small shared helpers: middle truncation for display, a vector with a
//! comma-joined rendering, and the per-user session data of the load test.

use crate::text;
use vstd::prelude::*;
use vstd::string::StrSliceExecFns;
use vstd::string::StringExecFns;

verus! {

/// What middle truncation keeps: the whole string when it fits into
/// `max_len` characters; otherwise the first `(max_len - 1) / 2` and the
/// last `max_len - keep - 1` characters around a single ellipsis character,
/// so the result is exactly `max_len` characters long.
pub open spec fn truncated_middle(s: Seq<char>, max_len: int) -> Seq<char> {
    if s.len() <= max_len {
        s
    } else {
        let keep = (max_len - 1) / 2;
        let end_keep = max_len - keep - 1;
        s.subrange(0, keep) + seq!['…'] + s.subrange(s.len() - end_keep, s.len() as int)
    }
}

/// Truncate from the middle if the string is too long. A string that fits
/// is returned unchanged, so only truncation itself needs a width to leave
/// room for the ellipsis.
pub fn truncate_middle(s: &str, max_len: usize) -> (r: String)
    requires
        max_len >= 1 || s@.len() == 0,
    ensures
        r@ == truncated_middle(s@, max_len as int),
{
    let n = s.unicode_len();
    if n <= max_len {
        String::from_str(s)
    } else {
        let keep = (max_len - 1) / 2;
        let end_keep = max_len - keep - 1;
        let mut out = String::from_str(s.substring_char(0, keep));
        text::push_char(&mut out, '…');
        out.append(s.substring_char(n - end_keep, n));
        proof {
            assert(s@.subrange(0, keep as int).push('…') + s@.subrange(
                n - end_keep,
                n as int,
            ) =~= truncated_middle(s@, max_len as int));
        }
        out
    }
}

/// A vector whose display form joins the elements with commas.
pub struct DisplayVec<T>(pub Vec<T>);

impl DisplayVec<String> {
    /// The elements joined with commas, as the value is displayed.
    pub fn to_display_string(&self) -> (r: String)
        ensures
            r@ == text::joined_with(self.0.deep_view(), ','),
    {
        text::join_with(&self.0, ',')
    }
}

/// The URN form of a UUID, as the service's API expects identifiers.
pub fn urn_uuid(id: &str) -> (r: String)
    ensures
        r@ == "urn:uuid:"@ + id@,
{
    let mut out = String::from_str("urn:uuid:");
    out.append(id);
    out
}

/// What one simulated user carries between transactions.
#[derive(Clone)]
pub struct GooseUserData {
    pub advisory_id: Option<String>,
    pub total_advisories: Option<u64>,
}

impl GooseUserData {
    /// The stored advisory ID, if one was recorded.
    pub fn stored_advisory_id(&self) -> (r: Option<String>)
        ensures
            r == self.advisory_id,
    {
        match &self.advisory_id {
            Some(id) => Some(id.clone()),
            None => None,
        }
    }
}

} // verus!
