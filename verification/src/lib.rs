//! OAuth2 device authorization grant for headless clients.
//!
//! The crate holds the decisions of the grant: which request goes to which
//! endpoint, how a provider's answer is read, when polling continues, when a
//! cached token is due for renewal, and how an account record changes as a
//! result. Sending requests, sleeping and touching files is left to the caller.
//!
//! - `config`: account records, and the configuration that holds them.
//! - `store`: the collection of records, and work on one record of it.
//! - `command`: choosing the record and the operation that a caller asks for.
//! - `device`: the grant itself, one answer at a time.
//! - `refresh`: renewing a token that has expired.
//! - `oauth`, `microsoft`: the answers of providers.
//! - `error`: what can go wrong.
//! - `clock`: points in time.
//! - `schema`, `json`, `views`: reading and writing JSON documents.

pub mod clock;
pub mod command;
pub mod config;
pub mod device;
pub mod error;
pub mod json;
pub mod microsoft;
pub mod oauth;
pub mod refresh;
pub mod schema;
pub mod store;
pub mod views;
