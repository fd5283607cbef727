use vstd::prelude::*;

use regex::Regex;

verus! {

/// Whether `pattern` is a regular expression that `regex::Regex::new` accepts.
pub uninterp spec fn regex_compiles(pattern: Seq<char>) -> bool;

/// Whether the regular expression `pattern` matches somewhere in `haystack`
/// (`regex::Regex::is_match`).
pub uninterp spec fn regex_matches(pattern: Seq<char>, haystack: Seq<char>) -> bool;

/// The substrings of `haystack` between the matches of `pattern`, in order
/// (`regex::Regex::split`).
pub uninterp spec fn regex_split(pattern: Seq<char>, haystack: Seq<char>) -> Seq<Seq<char>>;

/// `haystack` with the leftmost-first match of `pattern` replaced by
/// `replacement` (`regex::Regex::replace`).
pub uninterp spec fn regex_replace_first(
    pattern: Seq<char>,
    haystack: Seq<char>,
    replacement: Seq<char>,
) -> Seq<char>;

/// `haystack` with every non-overlapping match of `pattern` replaced by
/// `replacement` (`regex::Regex::replace_all`).
pub uninterp spec fn regex_replace_every(
    pattern: Seq<char>,
    haystack: Seq<char>,
    replacement: Seq<char>,
) -> Seq<char>;

/// Calls `regex::Regex::new` and reports whether it accepted the pattern.
/// Claimed: the answer depends on the pattern alone.
#[verifier::external_body]
pub(crate) fn compiles(pattern: &str) -> (ok: bool)
    ensures
        ok == regex_compiles(pattern@),
{
    Regex::new(pattern).is_ok()
}

/// Calls `regex::Regex::is_match` on a compiled pattern.
/// Claimed: the answer depends on the pattern and the haystack alone.
#[verifier::external_body]
pub(crate) fn is_match(pattern: &str, haystack: &str) -> (m: bool)
    requires
        regex_compiles(pattern@),
    ensures
        m == regex_matches(pattern@, haystack@),
{
    Regex::new(pattern).unwrap().is_match(haystack)
}

/// Calls `regex::Regex::split` and collects the pieces.
/// Claimed: the pieces depend on the pattern and the haystack alone.
#[verifier::external_body]
pub(crate) fn split(pattern: &str, haystack: &str) -> (pieces: Vec<String>)
    requires
        regex_compiles(pattern@),
    ensures
        pieces@.map_values(|p: String| p@) == regex_split(pattern@, haystack@),
{
    Regex::new(pattern).unwrap().split(haystack).map(|p| p.to_string()).collect()
}

/// Calls `regex::Regex::replace` with a literal replacement.
/// Claimed: the result depends on the pattern, the haystack and the
/// replacement alone (`$` references in the replacement are expanded by the
/// crate, and that too depends on these alone).
#[verifier::external_body]
pub(crate) fn replace_first(pattern: &str, haystack: &str, replacement: &str) -> (r: String)
    requires
        regex_compiles(pattern@),
    ensures
        r@ == regex_replace_first(pattern@, haystack@, replacement@),
{
    Regex::new(pattern).unwrap().replace(haystack, replacement).into_owned()
}

/// Calls `regex::Regex::replace_all` with a literal replacement.
/// Claimed: the result depends on the pattern, the haystack and the
/// replacement alone.
#[verifier::external_body]
pub(crate) fn replace_every(pattern: &str, haystack: &str, replacement: &str) -> (r: String)
    requires
        regex_compiles(pattern@),
    ensures
        r@ == regex_replace_every(pattern@, haystack@, replacement@),
{
    Regex::new(pattern).unwrap().replace_all(haystack, replacement).into_owned()
}

} // verus!
