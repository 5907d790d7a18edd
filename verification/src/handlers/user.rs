//! USER: records the client's user name and real name.

use vstd::prelude::*;
use std::collections::HashMap;
use crate::context::ConnectionContext;
use crate::message_parsing::opt_view;
use crate::replies::{Reply, ReplyView};
use crate::tokens::{trim_start_colons, trim_start_colons_of};
use super::outbox::{outbox_view, reply_views, single};

verus! {

/// The nick to address a connection by: its nick, or nothing yet.
pub open spec fn nick_or_empty(nick: Option<Seq<char>>) -> Seq<char> {
    match nick {
        Some(n) => n,
        None => seq![],
    }
}

/// Handles USER from `conn_context`. With both a user name and a real
/// name it records them (the real name without its leading colons) and
/// answers nothing; when either is missing it answers that parameters
/// are missing and changes nothing.
pub fn handle_user(
    server_host: &str,
    user: &Option<String>,
    realname: &Option<String>,
    conn_context: &mut ConnectionContext,
) -> (r: Option<HashMap<u128, Vec<Reply>>>)
    ensures
        final(conn_context).connection_id == old(conn_context).connection_id,
        final(conn_context).client == old(conn_context).client,
        final(conn_context).nick == old(conn_context).nick,
        final(conn_context).client_host == old(conn_context).client_host,
        match (user, realname) {
            (Some(u), Some(n)) => {
                &&& r is None
                &&& opt_view(final(conn_context).user) == Some(u@)
                &&& opt_view(final(conn_context).real_name) == Some(trim_start_colons(n@))
            },
            _ => {
                &&& final(conn_context).user == old(conn_context).user
                &&& final(conn_context).real_name == old(conn_context).real_name
                &&& r matches Some(m) && outbox_view(m@) == Map::<u128, Seq<ReplyView>>::empty().insert(
                    old(conn_context).connection_id,
                    seq![ReplyView::ErrNeedMoreParams {
                        server_host: server_host@,
                        nick: nick_or_empty(opt_view(old(conn_context).nick)),
                        command: "USER"@,
                    }],
                )
            },
        },
{
    let nick = match &conn_context.nick {
        Some(n) => n.clone(),
        None => String::new(),
    };
    if user.is_none() || realname.is_none() {
        let replies = vec![Reply::ErrNeedMoreParams {
            server_host: server_host.to_owned(),
            nick,
            command: "USER".to_owned(),
        }];
        let ghost rv = reply_views(replies@);
        assert(rv =~= seq![ReplyView::ErrNeedMoreParams {
            server_host: server_host@,
            nick: nick_or_empty(opt_view(conn_context.nick)),
            command: "USER"@,
        }]);
        return Some(single(conn_context.connection_id, replies));
    }
    match (user, realname) {
        (Some(u), Some(n)) => {
            conn_context.user = Some(u.clone());
            conn_context.real_name = Some(trim_start_colons_of(n.as_str()));
        },
        _ => {},
    }
    None
}

} // verus!
