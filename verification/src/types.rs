pub mod chat_event;
pub mod chat_server;
pub mod check_server;
pub mod client_id;
pub mod error;
pub mod json;
pub mod lang;
pub mod rand_id;
pub mod server;
