//! Connection-lifecycle core of an HTTP/1 server: upgrade negotiation, the
//! post-upgrade handshake, the registry of live connections and the
//! graceful-shutdown coordinator, each stated and proved as plain state
//! machines that the runtime drives.

pub mod negotiate;
pub mod handshake;
pub mod stream;
pub mod registry;
pub mod signal;
pub mod coordinator;
pub mod handler;
pub mod pinned;
