//! A typed, bidirectional network transport core.
//!
//! The crate verifies the logic of a per-connection actor that turns a raw
//! byte stream into a channel of typed messages, together with a listener
//! that accepts connections and exposes them through a registry.  The
//! asynchronous socket loops themselves live outside the library; everything
//! they decide — framing, shutdown policy, error normalization, event
//! draining — is verified here.
//!
//! A disconnect joins the background task with a bounded wait and a
//! forceful fallback, so the host's runtime must be built with its time
//! driver enabled.

pub mod connection;
pub mod events;
pub mod messaging;
pub mod server;
pub mod trusted;
