use vstd::prelude::*;
use crate::common::texts;

verus! {

/// Whether the pattern engine accepts `pattern` as a regular expression.
pub uninterp spec fn pattern_accepted(pattern: Seq<char>) -> bool;

/// The successive non-overlapping matches of an accepted `pattern` in `text`, from left
/// to right, each as the text it matched.
pub uninterp spec fn pattern_matches(pattern: Seq<char>, text: Seq<char>) -> Seq<Seq<char>>;

/// Calls `regex::Regex::new` and reports whether it compiled the pattern. Trusted: the
/// answer is what `pattern_accepted` names, a function of the pattern alone.
#[verifier::external_body]
pub(crate) fn compiles(pattern: &str) -> (out: bool)
    ensures
        out == pattern_accepted(pattern@),
{
    regex::Regex::new(pattern).is_ok()
}

/// Compiles the pattern with `regex::Regex::new` and walks `Regex::find_iter` over the
/// text, copying out each match. Trusted: a result comes exactly when the pattern is
/// accepted, and it is the sequence of matched texts that `pattern_matches` names.
#[verifier::external_body]
pub(crate) fn find_matches(pattern: &str, text: &str) -> (out: Option<Vec<String>>)
    ensures
        out is Some <==> pattern_accepted(pattern@),
        out matches Some(found) ==> texts(found@) == pattern_matches(pattern@, text@),
{
    match regex::Regex::new(pattern) {
        Ok(re) => Some(re.find_iter(text).map(|m| m.as_str().to_string()).collect()),
        Err(_) => None,
    }
}

} // verus!
