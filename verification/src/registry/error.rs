//! The registry's errors.
use vstd::prelude::*;

verus! {

/// The registry's errors, with the outside error that caused each, if any.
#[derive(Debug)]
pub enum ErrorKind {
    /// The store's address was refused.
    ValkeyConnect { address: String, source: redis::RedisError },
    /// No connection to the store could be had.
    ValkeyGetConnection { source: redis::RedisError },
    /// Reading peers from the store failed.
    GetPeer { source: redis::RedisError },
    /// Writing a peer to the store failed.
    AddPeer { public_key: String, public_ip: String, source: redis::RedisError },
    /// Removing a peer from the store failed.
    DeregisterDevice { public_key: String, source: redis::RedisError },
    /// A value could not be written as JSON.
    SerializeJson { context: String, source: serde_json::Error },
    /// Every address of the mesh pool is taken.
    IpPoolExhausted { pool: String },
    /// The given public key is not a WireGuard key.
    InvalidKey { public_key: String },
    /// The WebSocket handshake failed.
    Ws { source: actix_web::Error },
}

} // verus!
