//! A verified stream-proxy engine: the pure core of a bidirectional proxy
//! between a supervised child process's standard streams and a remote,
//! message-based channel.
//!
//! Text produced by the process is filtered line by line, batched over a
//! collection window, split into size-bounded chunks, and handed to a pacer
//! that delivers the chunks in order with a pause between sends. Inbound
//! messages are accepted only from the authorized sender, split into lines,
//! stripped of comment lines, and serialized into the process's input.
//!
//! Everything here is pure: the surrounding program performs the reads,
//! writes, sends and sleeps, and drives these components with the values it
//! obtained.

pub mod chunk;
pub mod collector;
pub mod error;
pub mod filter;
pub mod pacer;
pub mod router;
pub mod session;
pub mod supervisor;
