//! Bodies of the replies that the service sends.

pub mod error;
pub mod success;
