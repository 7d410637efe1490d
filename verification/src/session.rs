//! The root configuration of one running proxy session.
//!
//! A `Service` value holds the plain configuration that the engine's
//! components share: the authorized sender, the collection window, the pause
//! between sends, the transport's message-size limit, the comment marker and
//! the ignore substrings. The process and transport handles themselves live
//! in the surrounding program, which owns the I/O.

use vstd::prelude::*;

use crate::chunk::chunk;
use crate::filter::views;
use crate::router::{route_message, routed_commands};

verus! {

/// The configuration of one proxy session.
pub struct Service {
    /// The single chat identity whose messages are routed to the process.
    pub master_chat_id: i64,
    /// Length of one output collection window, in milliseconds.
    pub window_ms: u64,
    /// Pause after each outbound send, in milliseconds.
    pub pause_ms: u64,
    /// The transport's per-message character limit.
    pub message_limit: usize,
    /// First character of an inbound line that marks it as a comment.
    pub comment_marker: char,
    /// Substrings whose presence drops an output line from proxying.
    pub filter_dictionary: Vec<Vec<char>>,
}

impl Service {
    /// A session configuration is well formed when the transport admits
    /// messages of at least one character.
    pub open spec fn wf(self) -> bool {
        self.message_limit > 0
    }

    /// Builds the configuration of one session.
    pub fn new(
        master_chat_id: i64,
        window_ms: u64,
        pause_ms: u64,
        message_limit: usize,
        comment_marker: char,
        filter_dictionary: Vec<Vec<char>>,
    ) -> (s: Service)
        requires
            message_limit > 0,
        ensures
            s.wf(),
            s.master_chat_id == master_chat_id,
            s.window_ms == window_ms,
            s.pause_ms == pause_ms,
            s.message_limit == message_limit,
            s.comment_marker == comment_marker,
            s.filter_dictionary == filter_dictionary,
    {
        Service { master_chat_id, window_ms, pause_ms, message_limit, comment_marker, filter_dictionary }
    }

    /// Routes one inbound message: the commands to write to the process
    /// input, or none at all when the sender is not the master chat.
    pub fn route(&self, sender: i64, text: &Vec<char>) -> (cmds: Vec<Vec<char>>)
        ensures
            sender == self.master_chat_id ==> views(cmds@) == routed_commands(
                text@,
                self.comment_marker,
            ),
            sender != self.master_chat_id ==> cmds@.len() == 0,
    {
        route_message(self.master_chat_id, sender, text, self.comment_marker)
    }

    /// Splits one collected batch into transport-sized chunks.
    pub fn chunk_batch(&self, batch: &Vec<char>) -> (chunks: Vec<Vec<char>>)
        requires
            self.wf(),
        ensures
            views(chunks@).flatten() == batch@,
            forall|i: int|
                0 <= i < chunks@.len() ==> 1 <= (#[trigger] views(chunks@)[i]).len()
                    <= self.message_limit,
            chunks@.len() == 0 <==> batch@.len() == 0,
    {
        chunk(batch, self.message_limit)
    }
}

} // verus!
