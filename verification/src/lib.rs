//! Notification delivery and agent protocol for SimAdmin, with the channel
//! rules, request construction and message formats stated and proved.
pub mod text;
pub mod codec;
pub mod clock;
pub mod json;
pub mod notify;
pub mod protocol;
