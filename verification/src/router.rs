//! The input router: turns one inbound chat message into the command lines
//! that are written to the process's input stream.
//!
//! A message from any sender other than the authorized one yields nothing.
//! An authorized message is split into lines, comment lines are dropped, and
//! every remaining line is terminated by a newline. The commands of one
//! message are serialized into the input as one contiguous block.

use vstd::prelude::*;

use crate::chunk::lemma_views_push;
use crate::filter::{is_comment, line_is_comment, views};

verus! {

/// One trailing carriage return is removed from a line that a newline ended.
pub open spec fn strip_cr(line: Seq<char>) -> Seq<char> {
    if line.len() > 0 && line[line.len() - 1] == '\r' {
        line.drop_last()
    } else {
        line
    }
}

/// The lines of `rest` when `cur` holds the characters of the line in
/// progress: lines end at newline characters (a carriage return directly
/// before one is dropped), and a non-empty final segment without a newline is
/// a line of its own.
pub open spec fn split_rest(rest: Seq<char>, cur: Seq<char>) -> Seq<Seq<char>>
    decreases rest.len(),
{
    if rest.len() == 0 {
        if cur.len() == 0 {
            Seq::<Seq<char>>::empty()
        } else {
            seq![cur]
        }
    } else if rest[0] == '\n' {
        seq![strip_cr(cur)] + split_rest(rest.drop_first(), Seq::<char>::empty())
    } else {
        split_rest(rest.drop_first(), cur.push(rest[0]))
    }
}

/// The lines of a text, with line terminators removed.
pub open spec fn split_lines_spec(text: Seq<char>) -> Seq<Seq<char>> {
    split_rest(text, Seq::<char>::empty())
}

/// Holds of a line that is not a comment under the given marker.
pub open spec fn non_comment(marker: char) -> spec_fn(Seq<char>) -> bool {
    |l: Seq<char>| !is_comment(l, marker)
}

/// Appends the newline terminator a written command line carries.
pub open spec fn with_newline() -> spec_fn(Seq<char>) -> Seq<char> {
    |l: Seq<char>| l.push('\n')
}

/// The commands of one authorized message: its non-comment lines, in their
/// original order, each terminated by a newline.
pub open spec fn routed_commands(text: Seq<char>, marker: char) -> Seq<Seq<char>> {
    split_lines_spec(text).filter(non_comment(marker)).map_values(with_newline())
}

/// Splits a text into its lines.
pub fn split_lines(text: &Vec<char>) -> (lines: Vec<Vec<char>>)
    ensures
        views(lines@) == split_lines_spec(text@),
{
    let n: usize = text.len();
    let mut lines: Vec<Vec<char>> = Vec::new();
    let mut cur: Vec<char> = Vec::new();
    let mut t: usize = 0;
    proof {
        assert(text@.subrange(0, n as int) =~= text@);
        assert(views(lines@) + split_rest(text@, cur@) =~= split_rest(text@, cur@));
    }
    while t < n
        invariant
            n == text.len(),
            t <= n,
            views(lines@) + split_rest(text@.subrange(t as int, n as int), cur@)
                == split_lines_spec(text@),
        decreases n - t,
    {
        let ghost rest = text@.subrange(t as int, n as int);
        proof {
            assert(rest.drop_first() =~= text@.subrange(t + 1, n as int));
        }
        let c = text[t];
        assert(rest[0] == c);
        if c == '\n' {
            let ghost cur0 = cur@;
            if cur.len() > 0 && cur[cur.len() - 1] == '\r' {
                cur.pop();
                assert(cur@ =~= strip_cr(cur0));
            }
            assert(cur@ == strip_cr(cur0));
            let ghost prev_lines = lines@;
            let ghost curcopy = cur;
            lines.push(cur);
            cur = Vec::new();
            proof {
                lemma_views_push(prev_lines, curcopy);
                assert(split_rest(rest, cur0) == seq![strip_cr(cur0)] + split_rest(
                    rest.drop_first(),
                    Seq::<char>::empty(),
                ));
                assert(views(lines@) + split_rest(text@.subrange(t + 1, n as int), cur@)
                    =~= views(prev_lines) + split_rest(rest, cur0));
            }
        } else {
            let ghost cur0 = cur@;
            cur.push(c);
            proof {
                assert(split_rest(rest, cur0) == split_rest(rest.drop_first(), cur0.push(c)));
            }
        }
        t = t + 1;
    }
    proof {
        assert(text@.subrange(n as int, n as int) =~= Seq::<char>::empty());
    }
    if cur.len() > 0 {
        let ghost prev_lines = lines@;
        let ghost curcopy = cur;
        lines.push(cur);
        proof {
            lemma_views_push(prev_lines, curcopy);
            assert(views(lines@) =~= views(prev_lines) + seq![curcopy@]);
        }
    }
    lines
}

/// Copies the characters of a line into a fresh vector.
fn copy_chars(line: &Vec<char>) -> (c: Vec<char>)
    ensures
        c@ == line@,
{
    let mut c: Vec<char> = Vec::new();
    let mut j: usize = 0;
    while j < line.len()
        invariant
            j <= line@.len(),
            c@ == line@.take(j as int),
        decreases line@.len() - j,
    {
        c.push(line[j]);
        assert(line@.take(j + 1) =~= line@.take(j as int).push(line@[j as int]));
        j = j + 1;
    }
    assert(line@.take(line@.len() as int) =~= line@);
    c
}

/// Routes one inbound message.
///
/// A message whose sender is not the authorized one yields no commands at
/// all. An authorized message yields its non-comment lines, in order, each
/// terminated by a newline and ready to be written to the process input.
pub fn route_message(
    authorized_sender: i64,
    sender: i64,
    text: &Vec<char>,
    marker: char,
) -> (cmds: Vec<Vec<char>>)
    ensures
        sender == authorized_sender ==> views(cmds@) == routed_commands(text@, marker),
        sender != authorized_sender ==> cmds@.len() == 0,
        forall|i: int|
            0 <= i < cmds@.len() ==> (#[trigger] views(cmds@)[i]).len() > 0 && views(
                cmds@,
            )[i].last() == '\n',
{
    if sender != authorized_sender {
        let cmds: Vec<Vec<char>> = Vec::new();
        return cmds;
    }
    let lines = split_lines(text);
    let ghost lv = views(lines@);
    let mut cmds: Vec<Vec<char>> = Vec::new();
    let mut idx: usize = 0;
    proof {
        assert(lv.take(0).filter(non_comment(marker)).map_values(with_newline())
            =~= Seq::<Seq<char>>::empty());
    }
    while idx < lines.len()
        invariant
            lv == views(lines@),
            lv.len() == lines@.len(),
            idx <= lines@.len(),
            views(cmds@) == lv.take(idx as int).filter(non_comment(marker)).map_values(
                with_newline(),
            ),
            forall|i: int|
                0 <= i < cmds@.len() ==> (#[trigger] views(cmds@)[i]).len() > 0 && views(
                    cmds@,
                )[i].last() == '\n',
        decreases lines@.len() - idx,
    {
        let ghost taken = lv.take(idx as int);
        proof {
            assert(lv.take(idx + 1) =~= taken.push(lv[idx as int]));
            taken.lemma_filter_push(lv[idx as int], non_comment(marker));
        }
        if !line_is_comment(&lines[idx], marker) {
            let mut cmd = copy_chars(&lines[idx]);
            cmd.push('\n');
            let ghost prev_cmds = cmds@;
            let ghost cmdcopy = cmd;
            cmds.push(cmd);
            proof {
                lemma_views_push(prev_cmds, cmdcopy);
                let f = taken.filter(non_comment(marker));
                assert(f.push(lv[idx as int]).map_values(with_newline()) =~= f.map_values(
                    with_newline(),
                ).push(with_newline()(lv[idx as int])));
            }
        }
        idx = idx + 1;
    }
    proof {
        assert(lv.take(lv.len() as int) =~= lv);
    }
    cmds
}

/// Appends the commands of one message to the stream of characters written to
/// the process input, as one contiguous block in their original order.
pub fn write_commands(sink: &mut Vec<char>, cmds: &Vec<Vec<char>>)
    ensures
        final(sink)@ == old(sink)@ + views(cmds@).flatten(),
{
    let ghost cv = views(cmds@);
    let mut i: usize = 0;
    proof {
        assert(cv.take(0).flatten() =~= Seq::<char>::empty());
        assert(sink@ + cv.take(0).flatten() =~= sink@);
    }
    while i < cmds.len()
        invariant
            cv == views(cmds@),
            cv.len() == cmds@.len(),
            i <= cmds@.len(),
            sink@ == old(sink)@ + cv.take(i as int).flatten(),
        decreases cmds@.len() - i,
    {
        let line = &cmds[i];
        let mut j: usize = 0;
        while j < line.len()
            invariant
                cv == views(cmds@),
                cv.len() == cmds@.len(),
                i < cmds@.len(),
                line@ == cv[i as int],
                j <= line@.len(),
                sink@ == old(sink)@ + cv.take(i as int).flatten() + line@.take(j as int),
            decreases line@.len() - j,
        {
            sink.push(line[j]);
            assert(line@.take(j + 1) =~= line@.take(j as int).push(line@[j as int]));
            j = j + 1;
        }
        proof {
            assert(line@.take(line@.len() as int) =~= line@);
            cv.take(i as int).lemma_flatten_push(cv[i as int]);
            assert(cv.take(i + 1) =~= cv.take(i as int).push(cv[i as int]));
            assert(old(sink)@ + cv.take(i + 1).flatten() =~= old(sink)@ + cv.take(
                i as int,
            ).flatten() + line@);
        }
        i = i + 1;
    }
    proof {
        assert(cv.take(cv.len() as int) =~= cv);
    }
}

/// Two messages written to the input stream in sequence each occupy one
/// contiguous block, in write order: no character of the second message
/// stands between two characters of the first, and the other way round.
/// Concurrent inbound messages are serialized by the exclusive lock of the
/// surrounding program, so one of the two orders always obtains.
pub proof fn lemma_two_messages_form_blocks(log: Seq<char>, a: Seq<Seq<char>>, b: Seq<Seq<char>>)
    ensures
        (log + a.flatten() + b.flatten()).subrange(
            log.len() as int,
            log.len() + a.flatten().len() as int,
        ) == a.flatten(),
        (log + a.flatten() + b.flatten()).subrange(
            log.len() + a.flatten().len() as int,
            (log + a.flatten() + b.flatten()).len() as int,
        ) == b.flatten(),
{
    assert((log + a.flatten() + b.flatten()).subrange(
        log.len() as int,
        log.len() + a.flatten().len() as int,
    ) =~= a.flatten());
    assert((log + a.flatten() + b.flatten()).subrange(
        log.len() + a.flatten().len() as int,
        (log + a.flatten() + b.flatten()).len() as int,
    ) =~= b.flatten());
}

} // verus!
