//! Regular-expression search, done by the regex crate.

use vstd::prelude::*;

verus! {

/// The capture groups of one match: entry `i` is the text that group `i`
/// matched, or `None` where the group took no part in the match. Entry 0 is
/// the whole match.
pub type Groups = Seq<Option<Seq<char>>>;

/// What the regex crate finds for `pattern` in `text`: the capture groups
/// of the match that `Regex::captures` returns for the expression that
/// `Regex::new` compiles from `pattern`, or `None` where the expression does
/// not compile or matches nowhere in `text`.
pub uninterp spec fn regex_captures(pattern: Seq<char>, text: Seq<char>) -> Option<
    Seq<Option<Seq<char>>>,
>;

/// The text of group `i`, as `Captures::get` followed by `Match::as_str`
/// gives it: `None` where there is no such group or it took no part.
pub open spec fn group(groups: Groups, i: int) -> Option<Seq<char>> {
    if 0 <= i < groups.len() {
        groups[i]
    } else {
        None
    }
}

/// Compiles `pattern` with `Regex::new` and searches `text` with
/// `Regex::captures`; the groups are copied out with `Captures::iter` and
/// `Match::as_str`. Nothing is proved of the search: the result is only
/// given its name, `regex_captures`.
#[verifier::external_body]
pub(crate) fn captures(pattern: &str, text: &str) -> (r: Option<Vec<Option<String>>>)
    ensures
        r.deep_view() == regex_captures(pattern@, text@),
{
    let re = match regex::Regex::new(pattern) {
        Ok(re) => re,
        Err(_) => return None,
    };
    let found = re.captures(text)?;
    let mut groups = Vec::new();
    for part in found.iter() {
        groups.push(part.map(|m| m.as_str().to_string()));
    }
    Some(groups)
}

/// Copies group `i` out of the groups of a match.
pub fn group_text(groups: &Vec<Option<String>>, i: usize) -> (r: Option<String>)
    ensures
        r.deep_view() == group(groups.deep_view(), i as int),
{
    if i < groups.len() {
        match &groups[i] {
            Some(text) => Some(text.clone()),
            None => None,
        }
    } else {
        None
    }
}

} // verus!
