//! The registry: it keeps the devices of the mesh, hands each one a mesh
//! address and tells connected clients about peers.
pub mod allocation;
pub mod endpoints;
pub mod error;
pub mod peer;
pub mod session;
pub mod storage;
