//! Ticket identification: extract a work-item id from a window title.
//!
//! An ordered list of user-configured regex patterns is tried against the
//! title; the first pattern whose first match carries a first capturing
//! group wins, and that group's text is the issue id. A pattern that does
//! not compile, does not match, or matches without a first group is skipped.

use vstd::prelude::*;

verus! {

/// What trying one pattern against one title yields: `None` where the
/// pattern is not a valid regex; `Some(None)` where it is valid but does
/// not match the title, or matches without a first capturing group;
/// `Some(Some(c))` where the first match's first capturing group is `c`.
/// Regex matching is deterministic: the result depends on the pattern and
/// the title alone.
pub uninterp spec fn regex_first_capture(pattern: Seq<char>, title: Seq<char>) -> Option<
    Option<Seq<char>>,
>;

/// Relies on `regex::Regex::new` (a pattern that fails to compile is
/// reported as `None`), `regex::Regex::captures` (the leftmost-first match,
/// or `None`) and `regex::Captures::get` with index 1 (the first capturing
/// group of that match, or `None` where the group did not participate or
/// does not exist).
#[verifier::external_body]
fn first_capture(pattern: &str, title: &str) -> (r: Option<Option<String>>)
    ensures
        r.deep_view() == regex_first_capture(pattern@, title@),
{
    match regex::Regex::new(pattern) {
        Err(_) => None,
        Ok(re) => match re.captures(title) {
            None => Some(None),
            Some(caps) => match caps.get(1) {
                None => Some(None),
                Some(m) => Some(Some(m.as_str().to_string())),
            },
        },
    }
}

/// The issue id that an ordered pattern list resolves for a title: the
/// first capturing group of the first pattern that matches with one;
/// patterns that are invalid or do not yield a group are skipped.
pub open spec fn spec_identify(patterns: Seq<Seq<char>>, title: Seq<char>) -> Option<Seq<char>>
    decreases patterns.len(),
{
    if patterns.len() == 0 {
        None
    } else {
        match regex_first_capture(patterns[0], title) {
            Some(Some(c)) => Some(c),
            _ => spec_identify(patterns.drop_first(), title),
        }
    }
}

/// How the resolved id was found: by the window title where some pattern
/// yielded one, else not at all.
pub open spec fn spec_identified_by(patterns: Seq<Seq<char>>, title: Seq<char>) -> Seq<char> {
    if spec_identify(patterns, title) is Some {
        "window_title"@
    } else {
        "none"@
    }
}

/// Ticket identification is deterministic: the resolved id and its source
/// are functions of the pattern list and the title alone, so any two
/// results obtained for the same inputs agree.
pub proof fn lemma_identify_deterministic(
    patterns: Seq<Seq<char>>,
    title: Seq<char>,
    r1: (Option<Seq<char>>, Seq<char>),
    r2: (Option<Seq<char>>, Seq<char>),
)
    requires
        r1.0 == spec_identify(patterns, title),
        r1.1 == spec_identified_by(patterns, title),
        r2.0 == spec_identify(patterns, title),
        r2.1 == spec_identified_by(patterns, title),
    ensures
        r1 == r2,
{
}

/// Try the patterns in order against the title; the first one that matches
/// with a first capturing group decides the issue id.
pub fn identify(title: &str, patterns: &Vec<String>) -> (r: (Option<String>, String))
    ensures
        r.0.deep_view() == spec_identify(patterns.deep_view(), title@),
        r.1@ == spec_identified_by(patterns.deep_view(), title@),
{
    let ghost all: Seq<Seq<char>> = patterns.deep_view();
    let n = patterns.len();
    assert(all.skip(0) =~= all);
    for i in 0..n
        invariant
            n == patterns@.len(),
            all == patterns.deep_view(),
            spec_identify(all, title@) == spec_identify(all.skip(i as int), title@),
    {
        assert(all.skip(i as int)[0] == patterns@[i as int]@);
        assert(all.skip(i as int).drop_first() =~= all.skip(i as int + 1));
        match first_capture(patterns[i].as_str(), title) {
            Some(Some(c)) => {
                return (Some(c), "window_title".to_owned());
            },
            _ => {},
        }
    }
    assert(all.skip(n as int) =~= Seq::<Seq<char>>::empty());
    (None, "none".to_owned())
}

} // verus!
