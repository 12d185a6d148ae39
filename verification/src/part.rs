//! Parts and the rules for changing them.

pub mod domain;
pub mod service;
