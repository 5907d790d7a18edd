//! PING: answered with a PONG carrying the client's token.

use vstd::prelude::*;
use std::collections::HashMap;
use crate::context::ConnectionContext;
use crate::replies::{Reply, ReplyView};
use super::outbox::{outbox_view, single};

verus! {

/// The reply to a PING with `token`.
pub open spec fn ping_reply(server_host: Seq<char>, nick: Seq<char>, token: Option<Seq<char>>) -> ReplyView {
    match token {
        None => ReplyView::ErrNeedMoreParams { server_host, nick, command: "PING"@ },
        Some(t) => ReplyView::Pong { server_host, token: t },
    }
}

/// Answers a PING from `conn_context`.
pub fn handle_ping(
    server_host: &str,
    nick: &str,
    token: &Option<String>,
    conn_context: &ConnectionContext,
) -> (r: Option<HashMap<u128, Vec<Reply>>>)
    ensures
        r matches Some(m) && outbox_view(m@) == Map::<u128, Seq<ReplyView>>::empty().insert(
            conn_context.connection_id,
            seq![ping_reply(server_host@, nick@, crate::message_parsing::opt_view(*token))],
        ),
{
    let reply = match token {
        None => Reply::ErrNeedMoreParams {
            server_host: server_host.to_owned(),
            nick: nick.to_owned(),
            command: "PING".to_owned(),
        },
        Some(token) => Reply::Pong { server_host: server_host.to_owned(), token: token.clone() },
    };
    let replies = vec![reply];
    let m = single(conn_context.connection_id, replies);
    assert(super::outbox::reply_views(replies@) =~= seq![ping_reply(server_host@, nick@, crate::message_parsing::opt_view(*token))]);
    Some(m)
}

} // verus!
