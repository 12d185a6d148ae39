//! Rows of the store.

pub mod user;
