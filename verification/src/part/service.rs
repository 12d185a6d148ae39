//! What may be done to a part, and by whom.
//!
//! The store is asked by the caller. For a change, the function named after
//! the operation decides whether it may go ahead, and must be asked before
//! anything is written; a second function reports what the store answered.

pub mod auth;
pub mod create;
pub mod delete;
pub mod get;
pub mod update;
