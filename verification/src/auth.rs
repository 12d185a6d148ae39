//! Accounts, roles and identity claims.

pub mod domain;
pub mod jwt;
pub mod password;
pub mod service;
