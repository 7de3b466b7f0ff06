//! How the service is set up at start. Nothing changes these while it runs.

use vstd::prelude::*;

verus! {

/// How many connections to the relational store the pool holds at most. A
/// request that finds them all lent waits or fails; it is never given one
/// more.
pub const SQLITE_MAX_CONNECTIONS: u32 = 2;

/// How many clients the pool of the cache store holds.
pub const VALKEY_POOL_SIZE: usize = 1;

/// How many workers serve requests.
pub const WORKERS: usize = 1;

/// The address that the service listens on.
pub const HOST: &'static str = "127.0.0.1";

/// The port that the service listens on.
pub const PORT: u16 = 8080;

/// The prefix of every path that the service answers.
pub const API_PREFIX: &'static str = "/v1";

} // verus!
