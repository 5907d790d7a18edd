//! An IRC server library: message framing and parsing, reply rendering,
//! and the command handlers that decide which replies go to which
//! connection.

pub mod error;
pub mod text;
pub mod time;
pub mod replies;
pub mod context;
pub mod util;
pub mod handlers;
pub mod client_listener;
pub mod client_sender;
pub mod messages;
pub mod channels;
pub mod laws;
pub mod tokens;
pub mod message_parsing;
