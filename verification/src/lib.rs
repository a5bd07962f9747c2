//! Orchestration of one-off file transfers between two peers that share
//! nothing but a short introduction code.
//!
//! A transfer is a [`session::TransferSession`]: a state machine that is told
//! what has happened and answers with what to do next. The host does the
//! work (it talks to the rendezvous service, dials the peer, reads and
//! writes the file) and reports each result back as an event. Nothing here
//! touches the network or the file system, so every rule of a session can be
//! stated and proved over plain values:
//!
//! - [`code`]: introduction codes and their syntax;
//! - [`transit`]: the transports a side allows and the choice between them;
//! - [`streamer`]: the count of bytes and chunks against the declared size;
//! - [`signals`]: progress notifications and the request to stop;
//! - [`phase`], [`policy`]: the steps of a session and their time bounds;
//! - [`error`], [`message`], [`text`]: the categories of failure and the
//!   texts shown for them;
//! - [`machine`]: the transitions of a session, without its texts;
//! - [`session`], [`offer`]: a session with the texts it carries;
//! - [`registry`]: many sessions side by side;
//! - [`laws`]: what holds of every session.

pub mod code;
pub mod error;
pub mod laws;
pub mod machine;
pub mod message;
pub mod offer;
pub mod phase;
pub mod policy;
pub mod registry;
pub mod session;
pub mod signals;
pub mod streamer;
pub mod text;
pub mod transit;
