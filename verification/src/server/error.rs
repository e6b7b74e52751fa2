//! The server's errors and the HTTP answers they give.
use vstd::prelude::*;

verus! {

/// The server's errors, with the outside error that caused each, if any.
#[derive(Debug)]
pub enum ErrorKind {
    /// Listening on `address` failed.
    TcpBind { address: String, source: std::io::Error },
    /// An I/O error.
    Io(std::io::Error),
    /// The store could not be reached.
    ValkeyConnect { source: redis::RedisError },
    /// A value could not be written as JSON.
    SerializeJson(serde_json::Error),
    /// Reading the peer `public_key` failed.
    GetPeer { public_key: String, source: redis::RedisError },
    /// Writing the peer `public_key` failed.
    AddPeer { public_key: String, source: redis::RedisError },
    /// The given public key is not a WireGuard key.
    InvalidKey,
    /// The store's allocation script failed.
    ValkeyScript { source: redis::RedisError },
    /// Every address of the subnet whose bitmap is `key` is taken.
    ExhaustedSubnet { key: String },
}

/// The HTTP answer to an error: a status and, for some errors, a JSON body
/// `{"error": ...}`.
#[derive(Clone, Debug)]
pub struct ErrorResponse {
    pub status: u16,
    pub error: Option<String>,
}

/// The answer to an error: an invalid public key is answered with status
/// 200 and the body `{"error": "invalid public key"}`; every other error
/// with status 500 and no body.
pub fn error_response(e: &ErrorKind) -> (r: ErrorResponse)
    ensures
        e is InvalidKey ==> r.status == 200 && (r.error matches Some(m) && m@
            == "invalid public key"@),
        !(e is InvalidKey) ==> r.status == 500 && r.error is None,
{
    match e {
        ErrorKind::InvalidKey => ErrorResponse {
            status: 200,
            error: Some(String::from_str("invalid public key")),
        },
        _ => ErrorResponse { status: 500, error: None },
    }
}

} // verus!
