//! The line filter: pure predicates deciding which lines of text are kept.
//!
//! Outbound (process output towards the channel), a line is dropped when it
//! contains any of the configured ignore substrings. Inbound (messages
//! towards the process input), a line is dropped when it starts with the
//! comment marker. Matching is case-sensitive substring containment.

use vstd::prelude::*;

verus! {

/// The views of a sequence of character vectors, as a sequence of sequences.
pub open spec fn views(v: Seq<Vec<char>>) -> Seq<Seq<char>> {
    v.map_values(|x: Vec<char>| x@)
}

/// True when `pat` occurs in `line` as the contiguous run starting at `i`.
pub open spec fn matches_at(line: Seq<char>, pat: Seq<char>, i: int) -> bool {
    0 <= i && i + pat.len() <= line.len() && line.subrange(i, i + pat.len()) == pat
}

/// True when `pat` occurs somewhere in `line` as a contiguous run.
pub open spec fn contains_pattern(line: Seq<char>, pat: Seq<char>) -> bool {
    exists|i: int| matches_at(line, pat, i)
}

/// True when `line` contains at least one of the ignore substrings.
pub open spec fn line_ignored(line: Seq<char>, patterns: Seq<Seq<char>>) -> bool {
    exists|j: int| 0 <= j < patterns.len() && contains_pattern(line, #[trigger] patterns[j])
}

/// True when `line` is a comment: its first character is the comment marker.
pub open spec fn is_comment(line: Seq<char>, marker: char) -> bool {
    line.len() > 0 && line[0] == marker
}

/// Decides whether `pat` occurs in `line` starting exactly at position `i`.
fn matches_here(line: &Vec<char>, pat: &Vec<char>, i: usize) -> (r: bool)
    requires
        i + pat@.len() <= line@.len(),
    ensures
        r == matches_at(line@, pat@, i as int),
{
    let mut j: usize = 0;
    while j < pat.len()
        invariant
            i + pat@.len() <= line@.len(),
            line@.len() == line.len(),
            j <= pat@.len(),
            forall|k: int| 0 <= k < j ==> line@[i + k] == pat@[k],
        decreases pat@.len() - j,
    {
        if line[i + j] != pat[j] {
            assert(!matches_at(line@, pat@, i as int)) by {
                if line@.subrange(i as int, i + pat@.len()) == pat@ {
                    assert(line@.subrange(i as int, i + pat@.len())[j as int] == pat@[j as int]);
                }
            }
            return false;
        }
        j = j + 1;
    }
    assert(line@.subrange(i as int, i + pat@.len()) =~= pat@);
    true
}

/// Decides whether `pat` occurs anywhere in `line` as a contiguous run.
pub fn contains_substring(line: &Vec<char>, pat: &Vec<char>) -> (r: bool)
    ensures
        r == contains_pattern(line@, pat@),
{
    if pat.len() > line.len() {
        assert(forall|k: int| !matches_at(line@, pat@, k));
        return false;
    }
    if pat.len() == 0 {
        assert(line@.subrange(0, 0) =~= pat@);
        assert(matches_at(line@, pat@, 0));
        return true;
    }
    let last_start: usize = line.len() - pat.len();
    let mut i: usize = 0;
    while i <= last_start
        invariant
            1 <= pat@.len() <= line@.len(),
            line@.len() == line.len(),
            last_start == line@.len() - pat@.len(),
            i <= last_start + 1,
            forall|k: int| 0 <= k < i ==> !matches_at(line@, pat@, k),
        decreases last_start + 1 - i,
    {
        if matches_here(line, pat, i) {
            return true;
        }
        i = i + 1;
    }
    assert(forall|k: int| !matches_at(line@, pat@, k));
    false
}

/// Decides whether `line` contains at least one of the ignore substrings.
pub fn line_is_ignored(line: &Vec<char>, patterns: &Vec<Vec<char>>) -> (r: bool)
    ensures
        r == line_ignored(line@, views(patterns@)),
{
    let mut j: usize = 0;
    while j < patterns.len()
        invariant
            j <= patterns@.len(),
            forall|k: int| 0 <= k < j ==> !contains_pattern(line@, #[trigger] views(patterns@)[k]),
        decreases patterns@.len() - j,
    {
        if contains_substring(line, &patterns[j]) {
            assert(contains_pattern(line@, views(patterns@)[j as int]));
            return true;
        }
        j = j + 1;
    }
    false
}

/// Decides whether `line` is a comment line under the given marker.
pub fn line_is_comment(line: &Vec<char>, marker: char) -> (r: bool)
    ensures
        r == is_comment(line@, marker),
{
    if line.len() == 0 {
        false
    } else {
        line[0] == marker
    }
}

} // verus!
