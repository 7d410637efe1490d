//! The output collector: accumulates the kept lines of one output stream
//! over a collection window into a batch.
//!
//! The surrounding program reads lines from the stream against the window's
//! time budget and offers each to the collector; when the window elapses it
//! takes the batch. An empty batch is never emitted; a non-empty one always
//! is. A read that resolves only after its window elapsed is not discarded:
//! the surrounding program offers that line to the next window's batch.

use vstd::prelude::*;

use crate::filter::{line_ignored, line_is_ignored, views};

verus! {

/// The lines among `lines` that contain no ignore substring, in their
/// original order.
pub open spec fn kept_lines(lines: Seq<Seq<char>>, patterns: Seq<Seq<char>>) -> Seq<Seq<char>> {
    lines.filter(|l: Seq<char>| !line_ignored(l, patterns))
}

/// The batch the lines of one window produce: the kept lines, concatenated
/// in their original order, each verbatim.
pub open spec fn batch_of(lines: Seq<Seq<char>>, patterns: Seq<Seq<char>>) -> Seq<char> {
    kept_lines(lines, patterns).flatten()
}

/// Every line of a batch's kept lines is one of the offered lines and
/// contains no ignore substring; every offered line without an ignore
/// substring is among the kept lines. (Being a filtering, `kept_lines` also
/// preserves the offered order.)
pub proof fn lemma_kept_lines_sound(lines: Seq<Seq<char>>, patterns: Seq<Seq<char>>)
    ensures
        forall|i: int|
            0 <= i < kept_lines(lines, patterns).len() ==> !line_ignored(
                #[trigger] kept_lines(lines, patterns)[i],
                patterns,
            ) && lines.contains(kept_lines(lines, patterns)[i]),
        forall|i: int|
            0 <= i < lines.len() && !line_ignored(#[trigger] lines[i], patterns) ==> kept_lines(
                lines,
                patterns,
            ).contains(lines[i]),
{
    let pred = |l: Seq<char>| !line_ignored(l, patterns);
    assert forall|i: int| 0 <= i < kept_lines(lines, patterns).len() implies !line_ignored(
        #[trigger] kept_lines(lines, patterns)[i],
        patterns,
    ) && lines.contains(kept_lines(lines, patterns)[i]) by {
        lines.lemma_filter_pred(pred, i);
        assert(kept_lines(lines, patterns).contains(kept_lines(lines, patterns)[i]));
        lines.lemma_filter_contains_rev(pred, kept_lines(lines, patterns)[i]);
    }
    assert forall|i: int|
        0 <= i < lines.len() && !line_ignored(#[trigger] lines[i], patterns) implies kept_lines(
        lines,
        patterns,
    ).contains(lines[i]) by {
        lines.lemma_filter_contains(pred, i);
    }
}

/// The collector of one output stream.
pub struct Collector {
    /// The configured ignore substrings.
    pub patterns: Vec<Vec<char>>,
    /// The filtered text accumulated in the current window.
    pub batch: Vec<char>,
    /// The lines offered during the current window.
    pub offered: Ghost<Seq<Seq<char>>>,
}

impl Collector {
    /// The batch always equals what the offered lines produce.
    pub open spec fn wf(self) -> bool {
        self.batch@ == batch_of(self.offered@, views(self.patterns@))
    }

    /// A fresh collector with an empty batch.
    pub fn new(patterns: Vec<Vec<char>>) -> (c: Collector)
        ensures
            c.wf(),
            c.offered@ == Seq::<Seq<char>>::empty(),
            c.patterns == patterns,
    {
        let c = Collector { patterns, batch: Vec::new(), offered: Ghost(Seq::empty()) };
        proof {
            assert(kept_lines(c.offered@, views(c.patterns@)) =~= Seq::<Seq<char>>::empty());
        }
        c
    }

    /// Offers one line read from the stream within the current window: a
    /// line with an ignore substring is dropped, any other is appended to
    /// the batch verbatim.
    pub fn offer_line(&mut self, line: &Vec<char>)
        requires
            old(self).wf(),
        ensures
            final(self).wf(),
            final(self).offered@ == old(self).offered@.push(line@),
            final(self).patterns == old(self).patterns,
    {
        let ghost prev = self.offered@;
        let ghost pats = views(self.patterns@);
        let ghost pred = |l: Seq<char>| !line_ignored(l, pats);
        proof {
            prev.lemma_filter_push(line@, pred);
        }
        if !line_is_ignored(line, &self.patterns) {
            let mut j: usize = 0;
            let ghost batch0 = self.batch@;
            while j < line.len()
                invariant
                    j <= line@.len(),
                    self.batch@ == batch0 + line@.take(j as int),
                    self.patterns == old(self).patterns,
                    self.offered == old(self).offered,
                decreases line@.len() - j,
            {
                self.batch.push(line[j]);
                assert(line@.take(j + 1) =~= line@.take(j as int).push(line@[j as int]));
                j = j + 1;
            }
            proof {
                assert(line@.take(line@.len() as int) =~= line@);
                kept_lines(prev, pats).lemma_flatten_push(line@);
            }
        } else {
            proof {
                assert(self.batch@ + line@.take(0) =~= self.batch@);
            }
        }
        self.offered = Ghost(prev.push(line@));
    }

    /// Ends the current window: a non-empty batch is emitted and the
    /// collector starts over; an empty one is skipped.
    pub fn take_batch(&mut self) -> (b: Option<Vec<char>>)
        requires
            old(self).wf(),
        ensures
            final(self).wf(),
            final(self).offered@ == Seq::<Seq<char>>::empty(),
            final(self).batch@ == Seq::<char>::empty(),
            final(self).patterns == old(self).patterns,
            b matches Some(v) ==> v@ == batch_of(old(self).offered@, views(old(self).patterns@))
                && v@.len() > 0,
            b is None ==> batch_of(old(self).offered@, views(old(self).patterns@)).len() == 0,
    {
        proof {
            assert(kept_lines(Seq::<Seq<char>>::empty(), views(self.patterns@))
                =~= Seq::<Seq<char>>::empty());
        }
        self.offered = Ghost(Seq::empty());
        if self.batch.len() == 0 {
            proof {
                assert(self.batch@ =~= Seq::<char>::empty());
            }
            None
        } else {
            let out = self.batch.split_off(0);
            proof {
                assert(self.batch@ =~= Seq::<char>::empty());
            }
            Some(out)
        }
    }
}

} // verus!
