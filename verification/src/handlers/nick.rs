//! NICK: records the nick and greets the client with the welcome burst.

use vstd::prelude::*;
use vstd::string::StringExecFns;
use std::collections::HashMap;
use crate::context::ConnectionContext;
use crate::message_parsing::opt_view;
use crate::replies::{Reply, ReplyView};
use crate::time::Timestamp;
use super::outbox::{outbox_view, reply_views, single};

verus! {

/// The welcome burst sent to a client that took the nick `nick`.
pub open spec fn welcome_replies(server_host: Seq<char>, nick: Seq<char>, version: Seq<char>, created_at: Timestamp) -> Seq<ReplyView> {
    seq![
        ReplyView::Welcome { server_host, nick },
        ReplyView::YourHost { server_host, nick, version },
        ReplyView::Created { server_host, nick, created_at },
        ReplyView::MyInfo { server_host, nick, version, user_modes: "r"@, channel_modes: "i"@ },
        ReplyView::Support { server_host, nick, channel_len: 32 },
        ReplyView::LuserClient { server_host, nick, visible_users: 100, invisible_users: 20, servers: 1 },
        ReplyView::LuserOp { server_host, nick, operators: 1337 },
        ReplyView::LuserUnknown { server_host, nick, unknown: 7 },
        ReplyView::LuserChannels { server_host, nick, channels: 9999 },
        ReplyView::LuserMe { server_host, nick, clients: 900, servers: 1 },
        ReplyView::LocalUsers { server_host, nick, current: 845, max: 1000 },
        ReplyView::GlobalUsers { server_host, nick, current: 9832, max: 23455 },
        ReplyView::StatsDLine { server_host, nick, connections: 9998, clients: 9000, received: 99999 },
        ReplyView::MotdStart { server_host, nick },
        ReplyView::Motd { server_host, nick, line: "Foobar"@ },
        ReplyView::EndOfMotd { server_host, nick },
    ]
}

/// The client identity recorded for the nick `nick`: `nick!~nick@localhost`.
pub open spec fn client_identity(nick: Seq<char>) -> Seq<char> {
    nick + "!~"@ + nick + "@localhost"@
}

/// Handles NICK from `conn_context`: with a nick, records it and the
/// client identity and sends the welcome burst; without one, answers
/// that no nick was given and changes nothing.
pub fn handle_nick(
    server_host: &str,
    nick: &Option<String>,
    ctx_version: &str,
    ctx_created_at: &Timestamp,
    conn_context: &mut ConnectionContext,
) -> (m: HashMap<u128, Vec<Reply>>)
    ensures
        final(conn_context).connection_id == old(conn_context).connection_id,
        final(conn_context).user == old(conn_context).user,
        final(conn_context).real_name == old(conn_context).real_name,
        final(conn_context).client_host == old(conn_context).client_host,
        match nick {
            None => {
                &&& final(conn_context).nick == old(conn_context).nick
                &&& final(conn_context).client == old(conn_context).client
                &&& outbox_view(m@) == Map::<u128, Seq<ReplyView>>::empty().insert(
                    old(conn_context).connection_id,
                    seq![ReplyView::ErrNoNickGiven { server_host: server_host@ }],
                )
            },
            Some(n) => {
                &&& opt_view(final(conn_context).nick) == Some(n@)
                &&& opt_view(final(conn_context).client) == Some(client_identity(n@))
                &&& outbox_view(m@) == Map::<u128, Seq<ReplyView>>::empty().insert(
                    old(conn_context).connection_id,
                    welcome_replies(server_host@, n@, ctx_version@, *ctx_created_at),
                )
            },
        },
{
    let nick = match nick {
        Some(n) => n,
        None => {
            let replies = vec![Reply::ErrNoNickGiven { server_host: server_host.to_owned() }];
            let ghost rv = reply_views(replies@);
            assert(rv =~= seq![ReplyView::ErrNoNickGiven { server_host: server_host@ }]);
            return single(conn_context.connection_id, replies);
        },
    };

    conn_context.nick = Some(nick.clone());
    let mut client = nick.clone();
    client.append("!~");
    client.append(nick.as_str());
    client.append("@localhost");
    conn_context.client = Some(client);

    let h = server_host;
    let mut replies: Vec<Reply> = Vec::new();
    replies.push(Reply::Welcome { server_host: h.to_owned(), nick: nick.clone() });
    replies.push(Reply::YourHost { server_host: h.to_owned(), nick: nick.clone(), version: ctx_version.to_owned() });
    replies.push(Reply::Created { server_host: h.to_owned(), nick: nick.clone(), created_at: *ctx_created_at });
    replies.push(Reply::MyInfo {
        server_host: h.to_owned(),
        nick: nick.clone(),
        version: ctx_version.to_owned(),
        user_modes: "r".to_owned(),
        channel_modes: "i".to_owned(),
    });
    replies.push(Reply::Support { server_host: h.to_owned(), nick: nick.clone(), channel_len: 32 });
    replies.push(Reply::LuserClient {
        server_host: h.to_owned(),
        nick: nick.clone(),
        visible_users: 100,
        invisible_users: 20,
        servers: 1,
    });
    replies.push(Reply::LuserOp { server_host: h.to_owned(), nick: nick.clone(), operators: 1337 });
    replies.push(Reply::LuserUnknown { server_host: h.to_owned(), nick: nick.clone(), unknown: 7 });
    replies.push(Reply::LuserChannels { server_host: h.to_owned(), nick: nick.clone(), channels: 9999 });
    replies.push(Reply::LuserMe { server_host: h.to_owned(), nick: nick.clone(), clients: 900, servers: 1 });
    replies.push(Reply::LocalUsers { server_host: h.to_owned(), nick: nick.clone(), current: 845, max: 1000 });
    replies.push(Reply::GlobalUsers { server_host: h.to_owned(), nick: nick.clone(), current: 9832, max: 23455 });
    replies.push(Reply::StatsDLine {
        server_host: h.to_owned(),
        nick: nick.clone(),
        connections: 9998,
        clients: 9000,
        received: 99999,
    });
    replies.push(Reply::MotdStart { server_host: h.to_owned(), nick: nick.clone() });
    replies.push(Reply::Motd { server_host: h.to_owned(), nick: nick.clone(), line: "Foobar".to_owned() });
    replies.push(Reply::EndOfMotd { server_host: h.to_owned(), nick: nick.clone() });

    let ghost rv = reply_views(replies@);
    assert(rv =~= welcome_replies(server_host@, nick@, ctx_version@, *ctx_created_at));
    single(conn_context.connection_id, replies)
}

} // verus!
