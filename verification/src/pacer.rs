//! The delivery pacer: sends the chunks of one batch in order, one at a
//! time, with a pause after each successful send.
//!
//! The pacer is a small state machine; the surrounding program performs the
//! actual send and the actual sleep and reports their outcome back. A failed
//! send ends the batch at once: the remaining chunks are never offered again,
//! and no send is retried.

use vstd::prelude::*;

use crate::filter::views;

verus! {

/// What the surrounding program must do next for the current batch.
#[derive(Clone, Copy, Debug, PartialEq, Eq, Structural)]
pub enum PacerAction {
    /// Send the next chunk to the transport.
    SendNext,
    /// Wait out the configured pause.
    Pause,
    /// The batch is finished: delivered in full, or ended by a failed send.
    Done,
}

/// The delivery state of one batch of chunks.
pub struct Pacer {
    /// The chunks of the batch, in delivery order.
    pub chunks: Vec<Vec<char>>,
    /// How many chunks have been sent successfully.
    pub sent: usize,
    /// True between a successful send and the end of its pause.
    pub pausing: bool,
    /// True once a send has failed; the batch is then abandoned.
    pub failed: bool,
}

impl Pacer {
    /// Delivery never runs past the batch, pauses only follow a send, and a
    /// failed batch is never mid-pause.
    pub open spec fn wf(self) -> bool {
        &&& self.sent <= self.chunks@.len()
        &&& self.pausing ==> self.sent > 0
        &&& self.failed ==> !self.pausing
    }

    /// The chunks delivered so far: always a prefix of the batch, in order.
    pub open spec fn delivered(self) -> Seq<Seq<char>> {
        views(self.chunks@).take(self.sent as int)
    }

    /// True when the next step is to send a chunk.
    pub open spec fn needs_send(self) -> bool {
        !self.failed && !self.pausing && self.sent < self.chunks@.len()
    }

    /// A fresh pacer for one batch.
    pub fn new(chunks: Vec<Vec<char>>) -> (p: Pacer)
        ensures
            p.wf(),
            p.chunks == chunks,
            p.sent == 0,
            !p.pausing,
            !p.failed,
            p.delivered() == Seq::<Seq<char>>::empty(),
    {
        let p = Pacer { chunks, sent: 0, pausing: false, failed: false };
        proof {
            assert(p.delivered() =~= Seq::<Seq<char>>::empty());
        }
        p
    }

    /// The next step for this batch.
    pub fn next_action(&self) -> (a: PacerAction)
        requires
            self.wf(),
        ensures
            a == PacerAction::SendNext <==> self.needs_send(),
            a == PacerAction::Pause <==> !self.failed && self.pausing,
            a == PacerAction::Done <==> self.failed || (!self.pausing && self.sent
                == self.chunks@.len()),
    {
        if self.failed {
            PacerAction::Done
        } else if self.pausing {
            PacerAction::Pause
        } else if self.sent < self.chunks.len() {
            PacerAction::SendNext
        } else {
            PacerAction::Done
        }
    }

    /// The chunk the next send must carry.
    pub fn chunk_to_send(&self) -> (c: &Vec<char>)
        requires
            self.wf(),
            self.needs_send(),
        ensures
            c@ == views(self.chunks@)[self.sent as int],
    {
        &self.chunks[self.sent]
    }

    /// Records that the current chunk was sent successfully: delivery moves
    /// past it and the pause begins.
    pub fn record_sent(&mut self)
        requires
            old(self).wf(),
            old(self).needs_send(),
        ensures
            final(self).wf(),
            final(self).chunks == old(self).chunks,
            final(self).sent == old(self).sent + 1,
            final(self).pausing,
            !final(self).failed,
            final(self).delivered() == old(self).delivered().push(
                views(old(self).chunks@)[old(self).sent as int],
            ),
    {
        assert(self.sent < self.chunks.len());
        self.sent = self.sent + 1;
        self.pausing = true;
        proof {
            assert(self.delivered() =~= old(self).delivered().push(
                views(old(self).chunks@)[old(self).sent as int],
            ));
        }
    }

    /// Records that the send of the current chunk failed: the batch ends
    /// here and nothing more of it is ever delivered.
    pub fn record_send_failed(&mut self)
        requires
            old(self).wf(),
            old(self).needs_send(),
        ensures
            final(self).wf(),
            final(self).chunks == old(self).chunks,
            final(self).sent == old(self).sent,
            final(self).failed,
            !final(self).pausing,
            final(self).delivered() == old(self).delivered(),
    {
        self.failed = true;
    }

    /// Records that the pause after the last successful send has elapsed.
    pub fn record_pause_elapsed(&mut self)
        requires
            old(self).wf(),
            !old(self).failed,
            old(self).pausing,
        ensures
            final(self).wf(),
            final(self).chunks == old(self).chunks,
            final(self).sent == old(self).sent,
            !final(self).pausing,
            !final(self).failed,
            final(self).delivered() == old(self).delivered(),
    {
        self.pausing = false;
    }
}

} // verus!
