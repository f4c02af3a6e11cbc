//! Verified core of a QUIC port-forwarding tunnel: the wire format of the
//! control protocol, the handshake and control-loop decisions of both ends,
//! the registry of authenticated services and the configuration model.

pub mod client;
pub mod config;
pub mod protocol;
pub mod services;
pub mod utils;

pub use config::Config;
