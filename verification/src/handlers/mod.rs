//! The command handlers: each decides which replies go to which
//! connection, and how the server's state changes.

pub mod join;
pub mod mode;
pub mod nick;
pub mod part;
pub mod ping;
pub mod privmsg;
pub mod quit;
pub mod user;
pub mod who;
pub mod outbox;
