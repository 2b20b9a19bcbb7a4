//! Host-side bridge between untrusted guest modules and a single shared
//! simulation world.
//!
//! Guest modules never hold a reference to the world. Every call they make
//! arrives as a capability operation and is routed by a per-role dispatch
//! table ([`capability`]); accepted calls run against the world state owned
//! by the [`host::Host`], one at a time. Ephemeral GPU-backed resources that
//! guests create procedurally live in a generation-checked arena
//! ([`registry`]); long-running work is handed off to a deferred bridge and
//! re-enters the world only through a FIFO callback queue ([`deferred`]);
//! messages between modules and to the remote peer flow through the
//! [`channel`] outboxes.
//!
//! The collaborators that actually render, mix audio, move packets, or run
//! physics are outside this crate. They receive plain data (descriptors,
//! command logs, outbox entries) and hand back plain data; values the
//! collaborators compute in floating point cross the boundary as IEEE 754
//! bit patterns.

pub mod capability;
pub mod channel;
pub mod deferred;
pub mod descriptor;
pub mod error;
pub mod handle;
pub mod host;
pub mod registry;
pub mod world;
