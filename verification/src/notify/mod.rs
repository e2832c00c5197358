//! Notification channels: their configuration and its rules, the requests
//! that a delivery sends, and the answers it gives.
pub mod channel;
pub mod error;
pub mod config;
pub mod request;
pub mod email;
pub mod delivery;
pub mod laws;
