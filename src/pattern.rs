//! Regular expressions: the regex crate finds the matches.

use vstd::prelude::*;

use crate::text::strings_view;

verus! {

/// Whether the regex crate compiles `pattern`.
pub uninterp spec fn regex_valid(pattern: Seq<char>) -> bool;

/// The texts of the successive matches of `pattern` in `text`.
pub uninterp spec fn regex_match_texts(pattern: Seq<char>, text: Seq<char>) -> Seq<Seq<char>>;

/// Relies on regex's `Regex::new` (an error exactly for a pattern it does
/// not accept) and `find_iter`, which yields the successive non-overlapping
/// matches; their texts depend on the pattern and the text alone.
#[verifier::external_body]
pub(crate) fn regex_find_all(pattern: &str, text: &str) -> (r: Option<Vec<String>>)
    ensures
        r is Some <==> regex_valid(pattern@),
        r matches Option::Some(v) ==> strings_view(v@) == regex_match_texts(pattern@, text@),
{
    regex::Regex::new(pattern).ok().map(|re| re.find_iter(text).map(|m| m.as_str().to_string()).collect())
}

} // verus!
