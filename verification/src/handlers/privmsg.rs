//! PRIVMSG to a channel: relayed to every other member.

use vstd::prelude::*;
use std::collections::HashMap;
use crate::context::{Channels, ConnectionContext};
use crate::message_parsing::opt_view;
use crate::replies::{Reply, ReplyView};
use super::outbox::{outbox_view, reply_views, single, put, clone_opt};

verus! {

/// The message relayed to the other members of the channel.
pub open spec fn relayed_privmsg(nick: Seq<char>, sender: ConnectionContext, channel: Seq<char>, message: Seq<char>) -> ReplyView {
    ReplyView::PrivMsg {
        client_host: opt_view(sender.client_host),
        nick: Some(nick),
        user: opt_view(sender.user),
        channel,
        message,
    }
}

/// The connections a channel message reaches: for every member other
/// than the sender that is connected, the id its connection records.
pub open spec fn relay_targets(members: Seq<u128>, sender: u128, connections: Map<u128, ConnectionContext>) -> Set<u128> {
    Set::new(|k: u128| exists|i: int| 0 <= i < members.len() && #[trigger] members[i] != sender
        && connections.contains_key(members[i]) && connections[members[i]].connection_id == k)
}

/// Handles PRIVMSG from `conn_context`. Without a channel or a message
/// it answers that parameters are missing; for an unknown channel it
/// answers nothing at all (`None`); otherwise every other connected
/// member of the channel gets the message.
pub fn handle_privmsg(
    server_host: &str,
    nick: &str,
    channel: &Option<String>,
    message: &Option<String>,
    conn_context: &ConnectionContext,
    channels: &Channels,
    connections: &HashMap<u128, ConnectionContext>,
) -> (r: Option<HashMap<u128, Vec<Reply>>>)
    ensures
        match (channel, message) {
            (Some(c), Some(msg)) => if channels@.contains_key(c@) {
                r matches Some(m) && outbox_view(m@) == Map::new(
                    |k: u128| relay_targets(channels@[c@], conn_context.connection_id, connections@).contains(k),
                    |k: u128| seq![relayed_privmsg(nick@, *conn_context, c@, msg@)],
                )
            } else {
                r is None
            },
            _ => r matches Some(m) && outbox_view(m@) == Map::<u128, Seq<ReplyView>>::empty().insert(
                conn_context.connection_id,
                seq![ReplyView::ErrNeedMoreParams { server_host: server_host@, nick: nick@, command: "PRIVMSG"@ }],
            ),
        },
{
    broadcast use vstd::std_specs::hash::group_hash_axioms;
    let (channel, message) = match (channel, message) {
        (Some(c), Some(m)) => (c, m),
        _ => {
            let replies = vec![Reply::ErrNeedMoreParams {
                server_host: server_host.to_owned(),
                nick: nick.to_owned(),
                command: "PRIVMSG".to_owned(),
            }];
            let ghost rv = reply_views(replies@);
            assert(rv =~= seq![ReplyView::ErrNeedMoreParams { server_host: server_host@, nick: nick@, command: "PRIVMSG"@ }]);
            return Some(single(conn_context.connection_id, replies));
        },
    };
    let channel_ctx = match channels.get(channel.as_str()) {
        Some(c) => c,
        None => return None,
    };
    let ghost members = channel_ctx.members@;
    let ghost reply = relayed_privmsg(nick@, *conn_context, channel@, message@);
    let mut map: HashMap<u128, Vec<Reply>> = HashMap::new();
    let mut i: usize = 0;
    while i < channel_ctx.members.len()
        invariant
            i <= members.len(),
            members == channel_ctx.members@,
            reply == relayed_privmsg(nick@, *conn_context, channel@, message@),
            outbox_view(map@) == Map::new(
                |k: u128| relay_targets(members.take(i as int), conn_context.connection_id, connections@).contains(k),
                |k: u128| seq![reply],
            ),
        decreases members.len() - i,
    {
        let member = channel_ctx.members[i];
        let ghost before = outbox_view(map@);
        if member != conn_context.connection_id {
            match connections.get(&member) {
                Some(connected_member) => {
                    let r = Reply::PrivMsg {
                        nick: Some(nick.to_owned()),
                        user: clone_opt(&conn_context.user),
                        client_host: clone_opt(&conn_context.client_host),
                        channel: channel.clone(),
                        message: message.clone(),
                    };
                    assert(r@ == reply);
                    let replies = vec![r];
                    assert(reply_views(replies@) =~= seq![reply]);
                    put(&mut map, connected_member.connection_id, replies);
                },
                None => {},
            }
        }
        proof {
            let t0 = members.take(i as int);
            let t1 = members.take(i + 1);
            assert forall|k: u128| relay_targets(t1, conn_context.connection_id, connections@).contains(k)
                <==> relay_targets(t0, conn_context.connection_id, connections@).contains(k)
                    || (member != conn_context.connection_id && connections@.contains_key(member)
                        && connections@[member].connection_id == k) by {
                if relay_targets(t1, conn_context.connection_id, connections@).contains(k) {
                    let j = choose|j: int| 0 <= j < t1.len() && #[trigger] t1[j] != conn_context.connection_id
                        && connections@.contains_key(t1[j]) && connections@[t1[j]].connection_id == k;
                    if j < i {
                        assert(t0[j] == t1[j]);
                    }
                }
                if relay_targets(t0, conn_context.connection_id, connections@).contains(k) {
                    let j = choose|j: int| 0 <= j < t0.len() && #[trigger] t0[j] != conn_context.connection_id
                        && connections@.contains_key(t0[j]) && connections@[t0[j]].connection_id == k;
                    assert(t1[j] == t0[j]);
                }
                if member != conn_context.connection_id && connections@.contains_key(member)
                    && connections@[member].connection_id == k {
                    assert(t1[i as int] == member);
                }
            }
            assert(outbox_view(map@) =~= Map::new(
                |k: u128| relay_targets(t1, conn_context.connection_id, connections@).contains(k),
                |k: u128| seq![reply],
            ));
        }
        i = i + 1;
    }
    assert(members.take(members.len() as int) =~= members);
    Some(map)
}

} // verus!
