//! What a connection's writer decides for each reply it is handed.

use vstd::prelude::*;
use vstd::string::StringExecFns;
use crate::replies::{Reply, ReplyView, reply_text};

verus! {

/// What the writer does with one reply.
pub enum SendAction {
    /// The connection itself quit: stop writing.
    Stop,
    /// Write this line to the client.
    Write(String),
}

/// The line sent for a reply: its text and `"\r\n"`.
pub open spec fn reply_line(r: ReplyView) -> Seq<char> {
    reply_text(r) + "\r\n"@
}

/// Decides what the writer of the connection `connection_id` does with
/// `reply`: a QUIT of this very connection ends the writer, anything else
/// is written as one line.
pub fn on_reply(connection_id: u128, reply: &Reply) -> (a: SendAction)
    ensures
        match reply@ {
            ReplyView::Quit { connection_id: quitter, .. } if quitter == connection_id => a is Stop,
            _ => a matches SendAction::Write(line) && line@ == reply_line(reply@),
        },
{
    match reply {
        Reply::Quit { connection_id: quitter, .. } => {
            if *quitter == connection_id {
                return SendAction::Stop;
            }
        },
        _ => {},
    }
    let mut line = reply.to_irc_string();
    line.append("\r\n");
    SendAction::Write(line)
}

} // verus!
