//! The error taxonomy of one proxy session.
//!
//! Stream and transport failures are fatal to the session and are never
//! retried inside the engine; a pipeline ending because its source stream
//! closed normally is not an error and has no variant here.

use vstd::prelude::*;

verus! {

/// A fatal session error.
#[derive(Clone, Copy, Debug, PartialEq, Eq, Structural)]
pub enum Error {
    /// The child process could not be spawned.
    CannotSpawnProcess,
    /// The spawned process exposes no input stream.
    NoStdIn,
    /// The spawned process exposes no output stream.
    NoStdOut,
    /// The spawned process exposes no error stream.
    NoStdErr,
    /// The transport client could not be created or authenticated.
    TelegramApi,
    /// A command line could not be written to the process input stream.
    WriteExecutableStdIn,
    /// The transport rejected or failed an outbound message send.
    SendMessage,
    /// The transport rejected or failed the one-time greeting send.
    SendingInitializationMessage,
    /// An output stream read failed before the collection window elapsed.
    TimeoutCompletion,
}

} // verus!
