//! A TLS-terminating connection listener: credential loading, session
//! configuration, and the accept/handshake state machine, with the decisions
//! of each stated as contracts.

pub mod anchors;
pub mod config;
pub mod credentials;
pub mod engine;
pub mod error;
pub mod listener;
pub mod pem;
pub mod policy;
