//! Messages, framing and bookkeeping shared by the host and its applets.

pub mod buffer;
pub mod client;
pub mod connection;
pub mod frame;
pub mod host;
pub mod interface;
pub mod launch;
pub mod payload;
pub mod placement;
pub mod registry;
pub mod runtime;
pub mod wire;
