//! Searching a text for a pattern.

use vstd::prelude::*;

verus! {

/// What a search for `pattern` in `text` gives: `Err` with the reason when
/// the pattern is malformed, `Ok(None)` when nothing in the text matches, and
/// otherwise the capture groups of the leftmost match, the whole match first,
/// each one the text it captured or `None` when it took no part.
pub uninterp spec fn regex_search(pattern: Seq<char>, text: Seq<char>) -> Result<
    Option<Seq<Option<Seq<char>>>>,
    Seq<char>,
>;

/// The mathematical content of a search's outcome.
pub open spec fn search_view(found: Result<Option<Vec<Option<String>>>, String>) -> Result<
    Option<Seq<Option<Seq<char>>>>,
    Seq<char>,
> {
    match found {
        Ok(groups) => Ok(groups.deep_view()),
        Err(reason) => Err(reason@),
    }
}

/// Compiles `pattern` with `regex::Regex::new` and searches `text` with
/// `Regex::captures`. The contract names the outcome, which depends on the
/// pattern and the text alone; how a pattern matches is not modelled.
#[verifier::external_body]
pub(crate) fn search(pattern: &str, text: &str) -> (found: Result<
    Option<Vec<Option<String>>>,
    String,
>)
    ensures
        search_view(found) == regex_search(pattern@, text@),
{
    match regex::Regex::new(pattern) {
        Ok(compiled) => Ok(
            compiled.captures(text).map(
                |groups| groups.iter().map(|group| group.map(|m| m.as_str().to_string())).collect(),
            ),
        ),
        Err(reason) => Err(reason.to_string()),
    }
}

} // verus!
