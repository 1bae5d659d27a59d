pub mod chat_session;
pub mod error;
pub mod event_handler;
pub mod id;
pub mod numerals;
pub mod omegle;
pub mod server;
pub mod status;
pub mod strutil;
pub mod types;
