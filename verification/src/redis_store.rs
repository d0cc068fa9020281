//! A counter store in a shared Redis instance, reached through the `redis`
//! client crate. The keys are shared with any number of concurrent
//! processes, so no exact model of the contents can be promised: the store
//! reports `precise() == false`, and the engine's guarantees hold for every
//! value the server returns.
use vstd::prelude::*;

use crate::status::StoreUnavailable;
use crate::store::{CounterStore, StoreModel};

verus! {

#[verifier::external_type_specification]
#[verifier::external_body]
pub struct ExClient(redis::Client);

#[verifier::external_type_specification]
#[verifier::external_body]
pub struct ExConnection(redis::Connection);

/// A counter store backed by a Redis server.
pub struct RedisStore {
    client: redis::Client,
}

impl RedisStore {
    /// A store that opens a connection through `client` on each operation.
    pub fn new(client: redis::Client) -> (s: Self) {
        RedisStore { client }
    }
}

/// Relies on redis::Client::get_connection: opens a connection to the
/// server, failing when it cannot be reached.
#[verifier::external_body]
fn connect(client: &redis::Client) -> Result<redis::Connection, StoreUnavailable> {
    match client.get_connection() {
        Ok(conn) => Ok(conn),
        Err(_) => Err(StoreUnavailable),
    }
}

/// Relies on redis::Commands::incr (Redis INCRBY): atomically adds one to
/// the integer at `key`, creating it at one when absent, and returns the
/// post-increment value; fails on a connection or protocol error, including
/// a stored value that does not fit the unsigned result.
#[verifier::external_body]
fn conn_incr(conn: &mut redis::Connection, key: &str) -> Result<u64, StoreUnavailable> {
    match redis::Commands::incr(conn, key, 1u64) {
        Ok(n) => Ok(n),
        Err(_) => Err(StoreUnavailable),
    }
}

/// Relies on redis::Commands::expire (Redis EXPIRE): arms an expiry of
/// `ttl` seconds on `key`, overwriting any remaining one; a missing key is
/// left alone. The seconds travel as a signed integer, hence the bound.
#[verifier::external_body]
fn conn_expire(conn: &mut redis::Connection, key: &str, ttl: u64) -> Result<(), StoreUnavailable>
    requires
        1 <= ttl <= 0x7fff_ffff_ffff_ffff,
{
    match redis::Commands::expire::<&str, bool>(conn, key, ttl as i64) {
        Ok(_) => Ok(()),
        Err(_) => Err(StoreUnavailable),
    }
}

/// Relies on redis::Commands::ping (Redis PING): answers exactly when the
/// server is reachable and speaking the protocol.
#[verifier::external_body]
fn conn_ping(conn: &mut redis::Connection) -> Result<(), StoreUnavailable> {
    match redis::Commands::ping::<String>(conn) {
        Ok(_) => Ok(()),
        Err(_) => Err(StoreUnavailable),
    }
}

impl CounterStore for RedisStore {
    closed spec fn model(&self) -> StoreModel {
        StoreModel { counts: Map::empty(), ttls: Map::empty() }
    }

    closed spec fn precise(&self) -> bool {
        false
    }

    closed spec fn up(&self) -> bool {
        false
    }

    fn increment(&mut self, key: &str) -> (r: Result<u64, StoreUnavailable>) {
        let mut conn = match connect(&self.client) {
            Ok(c) => c,
            Err(e) => {
                return Err(e);
            },
        };
        conn_incr(&mut conn, key)
    }

    fn set_expiry(&mut self, key: &str, ttl: u64) -> (r: Result<(), StoreUnavailable>) {
        let mut conn = match connect(&self.client) {
            Ok(c) => c,
            Err(e) => {
                return Err(e);
            },
        };
        conn_expire(&mut conn, key, ttl)
    }

    fn ping(&mut self) -> (r: Result<(), StoreUnavailable>) {
        let mut conn = match connect(&self.client) {
            Ok(c) => c,
            Err(e) => {
                return Err(e);
            },
        };
        conn_ping(&mut conn)
    }
}

} // verus!
