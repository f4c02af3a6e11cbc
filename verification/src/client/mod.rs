//! The client end.

pub mod handle;
