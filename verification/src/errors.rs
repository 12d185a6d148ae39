//! Failures of the service and how they are reported.

pub mod app_error;
pub mod validation;
