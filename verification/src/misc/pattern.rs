//! Matching a text against a regular expression.

use regex::Regex;
use vstd::prelude::*;

verus! {

/// What the first match of a regular expression in a text captured: for
/// each group of the expression the text it matched, or `None` where the
/// group took no part in the match. Group 0 is the whole match. The
/// result is `None` where the expression matches nowhere in the text, and
/// also where it is no valid expression.
pub uninterp spec fn regex_captures(pattern: Seq<char>, text: Seq<char>) -> Option<
    Seq<Option<Seq<char>>>,
>;

/// The groups of a match as texts.
pub open spec fn groups_view(groups: Seq<Option<String>>) -> Seq<Option<Seq<char>>> {
    Seq::new(
        groups.len(),
        |i: int|
            match groups[i] {
                Some(s) => Some(s@),
                None => None,
            },
    )
}

/// `regex::Regex::new` and `regex::Regex::captures`: compiles the
/// expression and looks for its first match in the text. The result
/// holds what each group captured, by `Captures::iter`; by the
/// documentation of that function there is at least group 0, which
/// always matched. An expression that does not compile gives `None`, as
/// a text without a match does.
#[verifier::external_body]
pub(crate) fn captures(pattern: &str, text: &str) -> (r: Option<Vec<Option<String>>>)
    ensures
        match r {
            Some(groups) => {
                &&& regex_captures(pattern@, text@) == Some(groups_view(groups@))
                &&& groups@.len() >= 1
                &&& groups@[0] is Some
            },
            None => regex_captures(pattern@, text@) is None,
        },
{
    let re = Regex::new(pattern).ok()?;
    let caps = re.captures(text)?;
    Some(caps.iter().map(|m| m.map(|m| m.as_str().to_owned())).collect())
}

} // verus!
