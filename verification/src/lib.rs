//! Client side of a sandboxed PAM authenticator.
//!
//! Authentication runs in a separate worker process. This crate holds the
//! logic of the side that talks to it: the frames and payloads that travel
//! over the private channel, the table that matches each reply to the caller
//! waiting for it, and the decisions of the two loops that pump requests out
//! and responses in.
pub mod error;
pub mod frame;
pub mod handle;
pub mod pump;
pub mod pump_laws;
pub mod reply;
pub mod wire;
pub mod wire_laws;
