//! The chunker: splits a batch of text into an ordered sequence of segments,
//! each at most the transport's character limit, without dropping,
//! duplicating or splitting any character.

use vstd::prelude::*;

use crate::filter::views;

verus! {

/// Pushing a vector onto a sequence of vectors pushes its view onto the views.
pub proof fn lemma_views_push(s: Seq<Vec<char>>, x: Vec<char>)
    ensures
        views(s.push(x)) == views(s).push(x@),
{
    assert(views(s.push(x)) =~= views(s).push(x@));
}

/// Splits `text` into contiguous chunks of at most `limit` characters.
///
/// The chunks, concatenated in order, reproduce `text` exactly; every chunk
/// except possibly the last holds exactly `limit` characters; no chunk is
/// empty, so an empty text yields no chunks at all.
pub fn chunk(text: &Vec<char>, limit: usize) -> (chunks: Vec<Vec<char>>)
    requires
        limit > 0,
    ensures
        views(chunks@).flatten() == text@,
        forall|i: int| 0 <= i < chunks@.len() ==> 1 <= (#[trigger] views(chunks@)[i]).len() <= limit,
        forall|i: int| 0 <= i < chunks@.len() - 1 ==> (#[trigger] views(chunks@)[i]).len() == limit,
        chunks@.len() == 0 <==> text@.len() == 0,
{
    let n: usize = text.len();
    let mut chunks: Vec<Vec<char>> = Vec::new();
    let mut pos: usize = 0;
    while pos < n
        invariant
            limit > 0,
            n == text.len(),
            pos <= n,
            views(chunks@).flatten() == text@.subrange(0, pos as int),
            forall|i: int|
                0 <= i < chunks@.len() ==> 1 <= (#[trigger] views(chunks@)[i]).len() <= limit,
            pos < n ==> forall|i: int|
                0 <= i < chunks@.len() ==> (#[trigger] views(chunks@)[i]).len() == limit,
            forall|i: int|
                0 <= i < chunks@.len() - 1 ==> (#[trigger] views(chunks@)[i]).len() == limit,
            chunks@.len() == 0 ==> pos == 0,
        decreases n - pos,
    {
        let k: usize = if n - pos >= limit {
            limit
        } else {
            n - pos
        };
        let mut piece: Vec<char> = Vec::new();
        let mut j: usize = 0;
        while j < k
            invariant
                n == text.len(),
                pos + k <= n,
                j <= k,
                piece@ == text@.subrange(pos as int, pos + j),
            decreases k - j,
        {
            piece.push(text[pos + j]);
            assert(text@.subrange(pos as int, pos + j + 1) =~= text@.subrange(
                pos as int,
                pos + j,
            ).push(text@[pos + j]));
            j = j + 1;
        }
        let ghost prev = chunks@;
        let ghost pcopy = piece;
        chunks.push(piece);
        proof {
            lemma_views_push(prev, pcopy);
            views(prev).lemma_flatten_push(pcopy@);
            assert(chunks@ == prev.push(pcopy));
            assert(views(chunks@) == views(prev).push(pcopy@));
            assert(views(chunks@).flatten() == views(prev).flatten() + pcopy@);
            assert(text@.subrange(0, pos + k) =~= text@.subrange(0, pos as int) + text@.subrange(
                pos as int,
                pos + k,
            ));
        }
        pos = pos + k;
    }
    proof {
        assert(text@.subrange(0, n as int) =~= text@);
    }
    chunks
}

} // verus!
