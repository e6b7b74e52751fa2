//! Verified core of a WireGuard mesh: a registry that hands out mesh
//! addresses and a client that configures its peers.
pub mod text;
pub mod ip;
pub mod key;
pub mod allowed_ips;
pub mod client;
pub mod outside;
pub mod registry;
pub mod server;
pub mod valkey;
