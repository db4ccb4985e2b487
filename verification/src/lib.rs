//! The registry-federation and runtime-client layer of a container
//! operator console: protocol types, per-registry authentication state,
//! registry operations, a federated search over many registries, and the
//! runtime-control client with its in-memory substitute.

pub mod challenge;
pub mod clock;
pub mod config;
pub mod container;
pub mod error;
pub mod http;
pub mod manager;
pub mod mock;
pub mod quic;
pub mod registry;
pub mod runtime;
pub mod strnum;
pub mod substr;
pub mod urlenc;

pub use error::Error;
