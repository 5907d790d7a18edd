//! PART: removes the client from channels and tells the other members.

use vstd::prelude::*;
use std::collections::HashMap;
use crate::context::{Channels, ConnectionContext, contains_id, without};
use crate::replies::{Reply, ReplyView};
use crate::tokens::views;
use super::outbox::{outbox_view, reply_views, put, single};

verus! {

/// `out` after telling each member other than `leaver`, in member order,
/// that `client` left `channel`.
pub open spec fn notify_part(
    out: Map<u128, Seq<ReplyView>>,
    members: Seq<u128>,
    leaver: u128,
    client: Seq<char>,
    channel: Seq<char>,
) -> Map<u128, Seq<ReplyView>>
    decreases members.len(),
{
    if members.len() == 0 {
        out
    } else {
        let o = notify_part(out, members.drop_last(), leaver, client, channel);
        let m = members.last();
        if m != leaver {
            o.insert(m, seq![ReplyView::Part { client, channel }])
        } else {
            o
        }
    }
}

/// The channels and the outbox after leaving the channels of `list` one
/// after the other. A channel that does not exist, or that `leaver` is
/// not in, is passed over.
pub open spec fn part_scan(
    start: Map<Seq<char>, Seq<u128>>,
    list: Seq<Seq<char>>,
    client: Seq<char>,
    leaver: u128,
) -> (Map<Seq<char>, Seq<u128>>, Map<u128, Seq<ReplyView>>)
    decreases list.len(),
{
    if list.len() == 0 {
        (start, Map::empty())
    } else {
        let (chans, out) = part_scan(start, list.drop_last(), client, leaver);
        let ch = list.last();
        if chans.contains_key(ch) && chans[ch].contains(leaver) {
            (chans.insert(ch, without(chans[ch], leaver)), notify_part(out, chans[ch], leaver, client, ch))
        } else {
            (chans, out)
        }
    }
}

fn tell_members(
    map: &mut HashMap<u128, Vec<Reply>>,
    members: &Vec<u128>,
    leaver: u128,
    client: &str,
    channel: &String,
)
    ensures
        outbox_view(final(map)@) == notify_part(outbox_view(old(map)@), members@, leaver, client@, channel@),
{
    let ghost start = outbox_view(map@);
    let mut i: usize = 0;
    while i < members.len()
        invariant
            i <= members.len(),
            outbox_view(map@) == notify_part(start, members@.take(i as int), leaver, client@, channel@),
        decreases members.len() - i,
    {
        let member = members[i];
        assert(members@.take(i + 1).drop_last() =~= members@.take(i as int));
        if member != leaver {
            let replies = vec![Reply::Part { client: client.to_owned(), channel: channel.clone() }];
            assert(reply_views(replies@) =~= seq![ReplyView::Part { client: client@, channel: channel@ }]);
            put(map, member, replies);
        }
        i = i + 1;
    }
    assert(members@.take(members.len() as int) =~= members@);
}

/// Handles PART from `conn_context`. With no channels named it answers
/// that parameters are missing. Otherwise it leaves each named channel
/// the client is in and tells that channel's other members; channels
/// that do not exist or that the client is not in are passed over
/// without a reply.
pub fn handle_part(
    server_host: &str,
    nick: &str,
    client: &str,
    conn_context: &ConnectionContext,
    channels: &mut Channels,
    channels_to_leave: &[String],
) -> (r: Option<HashMap<u128, Vec<Reply>>>)
    ensures
        channels_to_leave@.len() == 0 ==> {
            &&& final(channels)@ == old(channels)@
            &&& r matches Some(m) && outbox_view(m@) == Map::<u128, Seq<ReplyView>>::empty().insert(
                conn_context.connection_id,
                seq![ReplyView::ErrNeedMoreParams { server_host: server_host@, nick: nick@, command: "PART"@ }],
            )
        },
        channels_to_leave@.len() > 0 ==> {
            let (chans, out) = part_scan(old(channels)@, views(channels_to_leave@), client@, conn_context.connection_id);
            &&& final(channels)@ == chans
            &&& r matches Some(m) && outbox_view(m@) == out
        },
{
    if channels_to_leave.len() == 0 {
        let replies = vec![Reply::ErrNeedMoreParams {
            server_host: server_host.to_owned(),
            nick: nick.to_owned(),
            command: "PART".to_owned(),
        }];
        assert(reply_views(replies@) =~= seq![ReplyView::ErrNeedMoreParams { server_host: server_host@, nick: nick@, command: "PART"@ }]);
        return Some(single(conn_context.connection_id, replies));
    }
    let ghost start = channels@;
    let ghost list = views(channels_to_leave@);
    let leaver = conn_context.connection_id;
    let mut map: HashMap<u128, Vec<Reply>> = HashMap::new();
    proof {
        broadcast use vstd::std_specs::hash::group_hash_axioms;
        assert(outbox_view(map@) =~= Map::<u128, Seq<ReplyView>>::empty());
    }
    let mut i: usize = 0;
    while i < channels_to_leave.len()
        invariant
            i <= channels_to_leave.len(),
            list == views(channels_to_leave@),
            leaver == conn_context.connection_id,
            ({
                let (chans, out) = part_scan(start, list.take(i as int), client@, leaver);
                &&& channels@ == chans
                &&& outbox_view(map@) == out
            }),
        decreases channels_to_leave.len() - i,
    {
        let channel = &channels_to_leave[i];
        proof {
            assert(list.take(i + 1).drop_last() =~= list.take(i as int));
            assert(list.take(i + 1).last() == channel@);
        }
        let is_member = match channels.get(channel.as_str()) {
            Some(ctx) => {
                if contains_id(&ctx.members, leaver) {
                    tell_members(&mut map, &ctx.members, leaver, client, channel);
                    true
                } else {
                    false
                }
            },
            None => false,
        };
        if is_member {
            channels.remove_member(channel.as_str(), leaver);
        }
        i = i + 1;
    }
    assert(list.take(channels_to_leave.len() as int) =~= list);
    Some(map)
}

} // verus!
