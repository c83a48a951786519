//! Verified core of an inter-process bridge between a host browser process
//! and a companion "enterprise shell" process.
//!
//! The two processes meet at a one-shot rendezvous point, negotiate a
//! protocol version, and then pump a typed message stream in both directions
//! to propagate cookies, preferences, auth tokens, lifecycle signals and
//! URL-open requests.
//!
//! This crate holds the protocol and state-machine logic: the message
//! catalog, the handshake on each side, the per-iteration decision functions
//! of both receive loops, the token cache, and the set-once console-URL
//! cell.  All transport (the channels themselves), threading and host calls
//! live outside; they feed events into these functions and carry out the
//! actions the functions return.

pub mod client_loop;
pub mod console;
pub mod cookie_record;
pub mod glean;
pub mod handshake;
pub mod lifecycle;
pub mod message;
pub mod profiler_state;
pub mod restart_forced;
pub mod server_loop;
pub mod session;
pub mod tokens;

pub use message::FELT_IPC_VERSION;
