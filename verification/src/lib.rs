//! A keyed message exchange between one client and a concurrent server.
//!
//! The client frames a key and a message as `key|message` and sends the frame
//! over a stream connection; the server splits the frame, runs the keyed
//! letter substitution backwards over the message and answers with a frame of
//! its own. This crate holds the protocol: the substitution, the framing, the
//! rules for command-line arguments and addresses, and the decisions that the
//! client session, the accept loop and each connection task take. Sockets,
//! signals and the process itself belong to the program around it, which
//! performs what the state machines here ask for and reports what happened.

pub mod error;
pub mod transport;
pub mod cipher;
pub mod framing;
pub mod address;
pub mod networking_util;
pub mod shutdown;
pub mod client;
pub mod server;

pub use error::ProtocolError;
