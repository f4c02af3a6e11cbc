//! The server end.

pub mod auth;
pub mod handle;
