//! Incremental fuzzy search: every option's display text is scored against
//! the query and the best-scoring option becomes the selection, ties going
//! to the earliest option. The scoring itself is skim's fuzzy matcher; the
//! ranking around it is verified.

use vstd::prelude::*;

use fuzzy_matcher::FuzzyMatcher;

use crate::options::MenuOption;

verus! {

/// The score skim's fuzzy matcher (default configuration) gives `pattern`
/// against `choice`: `None` when the pattern is not an in-order,
/// case-folded subsequence of the choice, a score otherwise.
pub uninterp spec fn skim_score(choice: Seq<char>, pattern: Seq<char>) -> Option<i64>;

/// The character positions of `choice` that skim's fuzzy matcher reports as
/// matching `pattern`, when it matches at all.
pub uninterp spec fn skim_match_indices(choice: Seq<char>, pattern: Seq<char>) -> Seq<usize>;

/// Relies on `fuzzy_matcher::skim::SkimMatcherV2::fuzzy_match` with the
/// default configuration: the score is a function of the two strings alone,
/// and an empty pattern always matches with score 0.
#[verifier::external_body]
fn skim_fuzzy_match(choice: &str, pattern: &str) -> (r: Option<i64>)
    ensures
        r == skim_score(choice@, pattern@),
        pattern@.len() == 0 ==> r == Some(0i64),
{
    fuzzy_matcher::skim::SkimMatcherV2::default().fuzzy_match(choice, pattern)
}

/// Relies on `fuzzy_matcher::skim::SkimMatcherV2::fuzzy_indices` with the
/// default configuration: it matches exactly when `fuzzy_match` does (both
/// decide by the same subsequence test), and the reported positions are a
/// function of the two strings alone.
#[verifier::external_body]
fn skim_fuzzy_indices(choice: &str, pattern: &str) -> (r: Option<Vec<usize>>)
    ensures
        r is Some <==> skim_score(choice@, pattern@) is Some,
        r is Some ==> r->0@ == skim_match_indices(choice@, pattern@),
{
    fuzzy_matcher::skim::SkimMatcherV2::default().fuzzy_indices(choice, pattern).map(
        |scored| scored.1,
    )
}

/// The score option `i` earns against query `q`.
pub open spec fn score_of(options: Seq<MenuOption>, q: Seq<char>, i: int) -> Option<i64> {
    skim_score(options[i].display@, q)
}

/// Option `i` is the selection the query picks: it matches, nothing scores
/// higher, and everything earlier scores strictly lower.
pub open spec fn is_best_match(options: Seq<MenuOption>, q: Seq<char>, i: int) -> bool {
    &&& 0 <= i < options.len()
    &&& score_of(options, q, i) is Some
    &&& forall|j: int|
        0 <= j < options.len() && (#[trigger] score_of(options, q, j)) is Some ==> score_of(
            options,
            q,
            j,
        )->0 <= score_of(options, q, i)->0
    &&& forall|j: int|
        0 <= j < i && (#[trigger] score_of(options, q, j)) is Some ==> score_of(options, q, j)->0
            < score_of(options, q, i)->0
}

/// No option matches the query at all.
pub open spec fn no_match(options: Seq<MenuOption>, q: Seq<char>) -> bool {
    forall|j: int| 0 <= j < options.len() ==> (#[trigger] score_of(options, q, j)) is None
}

/// Score every option's display text against the query and pick the index
/// of the best match, ties going to the lowest index; `None` when no option
/// matches. An empty query matches every option with score 0, so it always
/// picks the first option.
pub fn best_match(options: &Vec<MenuOption>, query: &str) -> (r: Option<usize>)
    ensures
        match r {
            Some(i) => is_best_match(options@, query@, i as int),
            None => no_match(options@, query@),
        },
        query@.len() == 0 && options@.len() >= 1 ==> r == Some(0usize),
{
    let len = options.len();
    let mut best_idx: usize = 0;
    let mut best_score: i64 = 0;
    let mut have: bool = false;
    let mut i: usize = 0;
    while i < len
        invariant
            i <= len,
            len == options@.len(),
            have ==> {
                &&& best_idx < i
                &&& score_of(options@, query@, best_idx as int) == Some(best_score)
                &&& forall|j: int|
                    0 <= j < i && (#[trigger] score_of(options@, query@, j)) is Some ==> score_of(
                        options@,
                        query@,
                        j,
                    )->0 <= best_score
                &&& forall|j: int|
                    0 <= j < best_idx && (#[trigger] score_of(options@, query@, j)) is Some
                        ==> score_of(options@, query@, j)->0 < best_score
            },
            !have ==> forall|j: int|
                0 <= j < i ==> (#[trigger] score_of(options@, query@, j)) is None,
            query@.len() == 0 && i >= 1 ==> have && best_idx == 0 && best_score == 0,
        decreases len - i,
    {
        let score = skim_fuzzy_match(options[i].display.as_str(), query);
        match score {
            Some(s) => {
                if !have || s > best_score {
                    best_idx = i;
                    best_score = s;
                    have = true;
                }
            },
            None => {},
        }
        i += 1;
    }
    if have {
        Some(best_idx)
    } else {
        None
    }
}

/// For each character position of `display`, whether skim's matcher counts
/// it as part of the match against `query`; `None` when the query does not
/// match at all. Drives match highlighting and nothing else.
pub fn highlight_flags(display: &str, query: &str) -> (r: Option<Vec<bool>>)
    ensures
        match r {
            Some(flags) => {
                &&& skim_score(display@, query@) is Some
                &&& flags@.len() == display@.len()
                &&& forall|i: int|
                    0 <= i < flags@.len() ==> flags@[i] == skim_match_indices(
                        display@,
                        query@,
                    ).contains(i as usize)
            },
            None => skim_score(display@, query@) is None,
        },
{
    let indices = match skim_fuzzy_indices(display, query) {
        Some(indices) => indices,
        None => {
            return None;
        },
    };
    let len = display.unicode_len();
    let mut flags: Vec<bool> = Vec::new();
    let mut i: usize = 0;
    while i < len
        invariant
            i <= len,
            len == display@.len(),
            indices@ == skim_match_indices(display@, query@),
            skim_score(display@, query@) is Some,
            flags@.len() == i,
            forall|j: int|
                0 <= j < i ==> flags@[j] == skim_match_indices(display@, query@).contains(
                    j as usize,
                ),
        decreases len - i,
    {
        flags.push(contains_index(&indices, i));
        i += 1;
    }
    Some(flags)
}

/// Whether `x` occurs in `v`.
fn contains_index(v: &Vec<usize>, x: usize) -> (r: bool)
    ensures
        r == v@.contains(x),
{
    let len = v.len();
    let mut i: usize = 0;
    while i < len
        invariant
            i <= len,
            len == v@.len(),
            forall|j: int| 0 <= j < i ==> v@[j] != x,
        decreases len - i,
    {
        if v[i] == x {
            return true;
        }
        i += 1;
    }
    false
}

} // verus!
