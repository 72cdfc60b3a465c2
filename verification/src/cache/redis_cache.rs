//! Cache backend over a Redis server.
//!
//! Every operation is a network round trip, so the connection is opened and
//! used by the server around this library; only the connection is held here.

use vstd::prelude::*;

verus! {

#[verifier::external_type_specification]
#[verifier::external_body]
pub struct ExMultiplexedConnection(::redis::aio::MultiplexedConnection);

/// Cache backend over a multiplexed Redis connection.
pub struct RedisCache {
    pub conn: ::redis::aio::MultiplexedConnection,
}

} // verus!
