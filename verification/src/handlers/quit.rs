//! QUIT: removes the client from every channel and tells everyone who
//! shared a channel with it.

use vstd::prelude::*;
use std::collections::HashMap;
use crate::context::{Channels, ConnectionContext, without};
use crate::message_parsing::opt_view;
use crate::replies::{Reply, ReplyView};
use super::outbox::{outbox_view, reply_views, put, clone_opt};

verus! {

/// The text sent when a client quits without a message of its own.
pub open spec fn default_quit_message() -> Seq<char> {
    "DEFAULT QUIT MESSAGE TODO"@
}

/// The QUIT relayed for the connection `connection_id`, whose context is
/// `c`.
pub open spec fn quit_reply(connection_id: u128, c: ConnectionContext, message: Option<Seq<char>>) -> ReplyView {
    ReplyView::Quit {
        connection_id,
        client_host: opt_view(c.client_host),
        nick: opt_view(c.nick),
        user: opt_view(c.user),
        message: match message {
            Some(m) => m,
            None => default_quit_message(),
        },
    }
}

/// The connected members, other than `quitter`, of the channels that
/// `quitter` is in.
pub open spec fn quit_targets(
    chans: Map<Seq<char>, Seq<u128>>,
    quitter: u128,
    connections: Map<u128, ConnectionContext>,
) -> Set<u128> {
    Set::new(|k: u128| k != quitter && connections.contains_key(k) && exists|ch: Seq<char>|
        #[trigger] chans.contains_key(ch) && chans[ch].contains(quitter) && chans[ch].contains(k))
}

/// Handles the end of the connection `connection_id`. An unknown
/// connection is answered with `None` and nothing changes. Otherwise the
/// connection leaves every channel, and the quit is sent to every
/// connected member of those channels and to the connection itself.
pub fn handle_quit(
    message: &Option<String>,
    channels: &mut Channels,
    connections: &HashMap<u128, ConnectionContext>,
    connection_id: u128,
) -> (r: Option<HashMap<u128, Vec<Reply>>>)
    ensures
        !connections@.contains_key(connection_id) ==> r is None && final(channels)@ == old(channels)@,
        connections@.contains_key(connection_id) ==> {
            let c = connections@[connection_id];
            &&& final(channels)@.dom() == old(channels)@.dom()
            &&& forall|ch: Seq<char>| #[trigger] final(channels)@.contains_key(ch)
                ==> final(channels)@[ch] == without(old(channels)@[ch], c.connection_id)
            &&& r matches Some(m) && outbox_view(m@) == Map::new(
                |k: u128| k == connection_id || quit_targets(old(channels)@, c.connection_id, connections@).contains(k),
                |k: u128| seq![quit_reply(connection_id, c, opt_view(*message))],
            )
        },
{
    broadcast use vstd::std_specs::hash::group_hash_axioms;
    let conn_context = match connections.get(&connection_id) {
        Some(c) => c,
        None => return None,
    };
    let ghost start = channels@;
    let ghost reply = quit_reply(connection_id, *conn_context, opt_view(*message));
    let text = match message {
        Some(m) => m.clone(),
        None => "DEFAULT QUIT MESSAGE TODO".to_owned(),
    };
    let others = channels.leave_all(conn_context.connection_id);
    let mut map: HashMap<u128, Vec<Reply>> = HashMap::new();
    let mut i: usize = 0;
    while i < others.len()
        invariant
            i <= others.len(),
            reply == quit_reply(connection_id, *conn_context, opt_view(*message)),
            text@ == match *message { Some(m) => m@, None => default_quit_message() },
            outbox_view(map@) == Map::new(
                |k: u128| others@.take(i as int).contains(k) && connections@.contains_key(k),
                |k: u128| seq![reply],
            ),
        decreases others.len() - i,
    {
        let member = others[i];
        proof {
            broadcast use vstd::seq_lib::group_seq_properties;
            assert(others@.take(i + 1) =~= others@.take(i as int).push(member));
        }
        match connections.get(&member) {
            Some(_c) => {
                let r = Reply::Quit {
                    connection_id,
                    client_host: clone_opt(&conn_context.client_host),
                    nick: clone_opt(&conn_context.nick),
                    user: clone_opt(&conn_context.user),
                    message: text.clone(),
                };
                let replies = vec![r];
                assert(reply_views(replies@) =~= seq![reply]);
                put(&mut map, member, replies);
            },
            None => {},
        }
        proof {
            broadcast use vstd::seq_lib::group_seq_properties;
            assert(outbox_view(map@) =~= Map::new(
                |k: u128| others@.take(i + 1).contains(k) && connections@.contains_key(k),
                |k: u128| seq![reply],
            ));
        }
        i = i + 1;
    }
    let r = Reply::Quit {
        connection_id,
        client_host: clone_opt(&conn_context.client_host),
        nick: clone_opt(&conn_context.nick),
        user: clone_opt(&conn_context.user),
        message: text,
    };
    let replies = vec![r];
    assert(reply_views(replies@) =~= seq![reply]);
    put(&mut map, connection_id, replies);
    proof {
        assert(others@.take(others.len() as int) =~= others@);
        assert(outbox_view(map@) =~= Map::new(
            |k: u128| k == connection_id || quit_targets(start, conn_context.connection_id, connections@).contains(k),
            |k: u128| seq![reply],
        ));
    }
    Some(map)
}

} // verus!
