//! Core of a live dictation pipeline: microphone samples are buffered without
//! ever blocking the capture callback, streamed to a remote speech service, and
//! the returned transcripts are handed on for text injection.
//!
//! The crate holds the buffering, framing and lifecycle rules of the
//! pipeline, each with a machine-checked contract. Hardware, sockets and task
//! scheduling live with the caller, which feeds events in and carries the
//! resulting actions out.
//!
//! - [`audio`]: the bounded ring buffer and its non-blocking flush into the
//!   outbound channel.
//! - [`capture`]: capture planning and the cutting of hardware deliveries
//!   into fixed-size blocks.
//! - [`wire`] and [`transcript`]: the frames sent to and received from the
//!   speech service.
//! - [`stream`]: the outbound and inbound loops of a running session.
//! - [`network`]: endpoint and connection request.
//! - [`state`] and [`session`]: the session lifecycle and the orchestrator's
//!   decisions on it.

pub mod audio;
pub mod capture;
pub mod network;
pub mod session;
pub mod state;
pub mod stream;
pub mod transcript;
pub mod wire;
