//! Authorization and credential core of a parts-inventory service.
//!
//! - [`auth::password`] hashes passwords and checks attempts against a
//!   stored hash.
//! - [`auth::jwt`] issues signed identity tokens, reads them back, and
//!   authenticates a request by its `Authorization` header.
//! - [`auth::service`] opens accounts and logs users in.
//! - [`part::service`] decides who may add, change or remove a part.
//! - [`errors`] and [`responses`] say how an outcome is reported.
//!
//! The crate talks to no store and to no network. Whoever uses it asks the
//! store and reads the request, hands the answers in as plain values, and
//! acts on what comes back.

pub mod auth;
pub mod errors;
pub mod ids;
pub mod models;
pub mod part;
pub mod responses;
pub mod store;
pub mod text;
