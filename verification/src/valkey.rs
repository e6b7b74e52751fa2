//! Opening a Redis client for a Valkey store.
use vstd::prelude::*;

verus! {

/// Name for whether `redis::Client::open` accepts the connection URL `url`
/// (it only reads the URL; it does not connect).
pub uninterp spec fn redis_url_accepted(url: Seq<char>) -> bool;

/// Calls `redis::Client::open`; it succeeds exactly when
/// `redis_url_accepted(url)`.  What the client holds is not stated.
#[verifier::external_body]
pub(crate) fn open_redis_client(url: &str) -> (r: Result<redis::Client, redis::RedisError>)
    ensures
        r is Ok <==> redis_url_accepted(url@),
{
    redis::Client::open(url)
}

} // verus!
