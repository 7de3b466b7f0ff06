//! Data access and error mapping for a user resource that is kept in a
//! relational store and served over HTTP.
//!
//! Nothing in this crate performs I/O. A request handler is a small state
//! machine: it names the next thing to do with the connection pool, is told
//! what came of it, and ends with the response to send.
//!
//! - [`user`]: the user entity and the four requests about it.
//! - [`handler`]: the state machine, its actions and events.
//! - [`statement`]: the statements that go to the store.
//! - [`error`]: the failures, and the status each is reported under.
//! - [`response`]: status codes and bodies.
//! - [`store`]: what a working store answers, and what a client then sees
//!   over several requests.
//! - [`route`]: the requests that are not about a user.
//! - [`settings`]: how the service is set up at start.

pub mod error;
pub mod handler;
pub mod response;
pub mod route;
pub mod settings;
pub mod statement;
pub mod store;
pub mod user;
