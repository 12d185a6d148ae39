//! Opening an account and logging in.
//!
//! The store is asked by the caller. Each function here takes the answer of
//! the store and decides what happens next.

pub mod login;
pub mod signup;
pub mod user_create;
