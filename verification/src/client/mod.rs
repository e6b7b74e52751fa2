//! The mesh client: it finds its public endpoint, registers with the
//! registry and keeps its WireGuard peers in line with the registry's.
pub mod config;
pub mod discovery;
pub mod error;
pub mod netlink;
pub mod peers;
pub mod registration;
pub mod state;
