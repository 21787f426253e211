//! The appointment-type predicate: a visit motive's display name matches when,
//! after removing every literal "19" and lowercasing, it still contains the
//! digit '1' and the word "pfizer". The two-part test is inherited domain
//! logic for recognising "first dose, Pfizer" motive labels.

use vstd::prelude::*;
use crate::text::{contains_char, contains_sub, has_sub};

verus! {

/// `s` with every occurrence of the two characters "19" removed,
/// scanning left to right over non-overlapping matches.
pub open spec fn strip_19(s: Seq<char>) -> Seq<char>
    decreases s.len(),
{
    if s.len() >= 2 && s[0] == '1' && s[1] == '9' {
        strip_19(s.skip(2))
    } else if s.len() >= 1 {
        seq![s[0]] + strip_19(s.skip(1))
    } else {
        Seq::empty()
    }
}

/// The Unicode lowercase mapping of a string, as `str::to_lowercase` computes it.
pub uninterp spec fn lower_of(s: Seq<char>) -> Seq<char>;

/// Relies on `str::replace` with pattern "19" and an empty replacement:
/// it removes the leftmost-first, non-overlapping occurrences of "19".
#[verifier::external_body]
fn replace_19(s: &str) -> (r: String)
    ensures
        r@ == strip_19(s@),
{
    s.replace("19", "")
}

/// Relies on `str::to_lowercase`: the result is the Unicode lowercase of the
/// input and depends on the input characters alone.
#[verifier::external_body]
fn lowercase(s: &str) -> (r: String)
    ensures
        r@ == lower_of(s@),
        s@.len() == 0 ==> r@.len() == 0,
{
    s.to_lowercase()
}

/// A motive name matches when, once "19" is stripped and the rest lowercased,
/// it contains both the digit '1' and the substring "pfizer".
pub open spec fn motive_matches(name: Seq<char>) -> bool {
    let t = lower_of(strip_19(name));
    t.contains('1') && has_sub(t, "pfizer"@)
}

/// Decides whether a visit motive's display name is the appointment type
/// this scanner searches for.
pub fn motive_filter(name: &str) -> (r: bool)
    ensures
        r == motive_matches(name@),
{
    let stripped = replace_19(name);
    let folded = lowercase(stripped.as_str());
    contains_char(folded.as_str(), '1') && contains_sub(folded.as_str(), "pfizer")
}

} // verus!
