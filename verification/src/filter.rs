//! The search filter: a case-insensitive substring predicate over entry
//! paths, driven by the current search query.

use vstd::prelude::*;
use crate::text::{has_substring, contains_substring, str_chars};

verus! {

/// The Unicode lower-case form of a character sequence, as produced by the
/// standard library's case conversion. The result depends on the characters
/// alone.
pub uninterp spec fn lower_of(s: Seq<char>) -> Seq<char>;

/// Relies on str::to_lowercase: the lower-case form of a string, a function
/// of its characters alone; an empty string stays empty.
#[verifier::external_body]
fn lowercase(s: &str) -> (r: String)
    ensures
        r@ == lower_of(s@),
        s@.len() == 0 ==> r@.len() == 0,
{
    s.to_lowercase()
}

/// The filter predicate on already lower-cased operands: an empty query
/// matches everything, otherwise the query must occur in the path.
pub open spec fn matches_lowered(query: Seq<char>, path: Seq<char>) -> bool {
    query.len() == 0 || has_substring(path, query)
}

/// The filter predicate: an empty query matches everything, otherwise the
/// lower-cased path must contain the lower-cased query.
pub open spec fn matches_spec(query: Seq<char>, path: Seq<char>) -> bool {
    query.len() == 0 || has_substring(lower_of(path), lower_of(query))
}

/// The predicate on operands that have already been lower-cased; exact on
/// every pair of character sequences.
pub fn matches_folded(query: &Vec<char>, path: &Vec<char>) -> (r: bool)
    ensures
        r == matches_lowered(query@, path@),
{
    if query.len() == 0 {
        true
    } else {
        contains_substring(path, query)
    }
}

/// Whether `path` is visible under `query`: true iff the query is empty or
/// the lower-cased path contains the lower-cased query.
pub fn matches(query: &str, path: &str) -> (r: bool)
    ensures
        r == matches_spec(query@, path@),
{
    if query.is_empty() {
        return true;
    }
    let lq = lowercase(query);
    let lp = lowercase(path);
    let vq = str_chars(lq.as_str());
    let vp = str_chars(lp.as_str());
    proof {
        if lower_of(query@).len() == 0 {
            assert(crate::text::substring_at(lower_of(path@), lower_of(query@), 0)) by {
                assert(lower_of(path@).subrange(0, 0) =~= lower_of(query@));
            }
        }
    }
    matches_folded(&vq, &vp)
}

} // verus!
