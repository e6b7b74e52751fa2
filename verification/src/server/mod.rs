//! The registry served over axum: devices register and get a mesh address
//! that the store hands out from a bitmap of the subnet.
pub mod endpoints;
pub mod error;
pub mod storage;
