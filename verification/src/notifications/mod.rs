//! The notification daemon's logic: the notification store, hint decoding, body
//! sanitization, history and do-not-disturb.
pub mod dnd;
pub mod hints;
pub mod history;
pub mod sanitize;
pub mod server;
pub mod types;
