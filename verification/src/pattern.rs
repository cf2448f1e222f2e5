//! Matching of regular expressions, done by the `regex` crate.

use vstd::prelude::*;
use crate::text::opt_text;

verus! {

/// What `regex` makes of `text` when the pattern `pattern` is compiled and
/// its leftmost non-overlapping matches are replaced by `rep`, the first
/// `limit` of them, or all where `limit` is zero; `None` where the crate
/// refuses the pattern.
pub uninterp spec fn regex_replaced(
    pattern: Seq<char>,
    text: Seq<char>,
    limit: nat,
    rep: Seq<char>,
) -> Option<Seq<char>>;

/// `regex::Regex::new` on `pattern`, then `Regex::replacen` on `text` with
/// `limit` and `rep`. The contract only gives the result its name: it is a
/// function of the four arguments, and it is `None` exactly where the
/// pattern does not compile. Nothing is claimed about what is matched.
#[verifier::external_body]
pub(crate) fn replace_matches(pattern: &str, text: &str, limit: usize, rep: &str) -> (out: Option<
    String,
>)
    ensures
        opt_text(out) == regex_replaced(pattern@, text@, limit as nat, rep@),
{
    match regex::Regex::new(pattern) {
        Ok(re) => Some(re.replacen(text, limit, rep).into_owned()),
        Err(_) => None,
    }
}

/// Mathematical value of the groups of a match.
pub open spec fn group_texts(groups: Seq<Option<String>>) -> Seq<Option<Seq<char>>> {
    groups.map_values(|g: Option<String>| opt_text(g))
}

/// Mathematical value of the optional groups of a match.
pub open spec fn opt_groups(found: Option<Vec<Option<String>>>) -> Option<Seq<Option<Seq<char>>>> {
    match found {
        Some(groups) => Some(group_texts(groups@)),
        None => None,
    }
}

/// What `regex` captures of `text` at the leftmost match of the pattern
/// `pattern`: the text of each group, the whole match first, and `None` for
/// a group that took no part; `None` where the crate refuses the pattern or
/// finds no match.
pub uninterp spec fn regex_captured(pattern: Seq<char>, text: Seq<char>) -> Option<
    Seq<Option<Seq<char>>>,
>;

/// `regex::Regex::new` on `pattern`, then `Regex::captures` on `text`, each
/// group of `Captures::iter` given as its text. The contract only gives the
/// result its name: it is a function of the two arguments. Nothing is
/// claimed about what is matched.
#[verifier::external_body]
pub(crate) fn capture_groups(pattern: &str, text: &str) -> (out: Option<Vec<Option<String>>>)
    ensures
        opt_groups(out) == regex_captured(pattern@, text@),
{
    match regex::Regex::new(pattern) {
        Ok(re) => re.captures(text).map(
            |found| found.iter().map(|group| group.map(|m| m.as_str().to_owned())).collect(),
        ),
        Err(_) => None,
    }
}

} // verus!
