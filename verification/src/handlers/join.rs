//! JOIN: adds the client to channels, greets it with each channel's
//! topic and names, and tells the other members.

use vstd::prelude::*;
use std::collections::HashMap;
use crate::context::{Channels, ConnectionContext, with_member};
use crate::replies::{Reply, ReplyView};
use crate::time::Timestamp;
use crate::tokens::views;
use super::outbox::{outbox_view, reply_views, put};

verus! {

/// What the joining client is told about `channel`, whose members have
/// the nicks `users`.
pub open spec fn join_replies(
    server_host: Seq<char>,
    nick: Seq<char>,
    client: Seq<char>,
    channel: Seq<char>,
    now: Timestamp,
    users: Seq<Seq<char>>,
) -> Seq<ReplyView> {
    seq![
        ReplyView::Join { client, channel },
        ReplyView::Topic { server_host, nick, channel, topic: "foobar topic"@ },
        ReplyView::TopicWhoTime { server_host, channel, nick, set_at: now },
        ReplyView::Nam { server_host, nick, channel, channel_users: users },
        ReplyView::EndOfNames { server_host, nick, channel },
    ]
}

/// The nicks of the members that are connected and have a nick, in
/// member order.
pub open spec fn member_nicks(members: Seq<u128>, connections: Map<u128, ConnectionContext>) -> Seq<Seq<char>>
    decreases members.len(),
{
    if members.len() == 0 {
        seq![]
    } else {
        let rest = member_nicks(members.drop_last(), connections);
        let m = members.last();
        if connections.contains_key(m) {
            match connections[m].nick {
                Some(n) => rest.push(n@),
                None => rest,
            }
        } else {
            rest
        }
    }
}

/// `out` after telling each connected member other than `joiner`, in
/// member order, that `client` joined `channel`.
pub open spec fn notify_join(
    out: Map<u128, Seq<ReplyView>>,
    members: Seq<u128>,
    joiner: u128,
    connections: Map<u128, ConnectionContext>,
    client: Seq<char>,
    channel: Seq<char>,
) -> Map<u128, Seq<ReplyView>>
    decreases members.len(),
{
    if members.len() == 0 {
        out
    } else {
        let o = notify_join(out, members.drop_last(), joiner, connections, client, channel);
        let m = members.last();
        if m != joiner && connections.contains_key(m) {
            o.insert(connections[m].connection_id, seq![ReplyView::Join { client, channel }])
        } else {
            o
        }
    }
}

/// The channels and the outbox after joining the channels of `list` one
/// after the other, starting from the channels `start` and no replies.
pub open spec fn join_scan(
    start: Map<Seq<char>, Seq<u128>>,
    list: Seq<Seq<char>>,
    server_host: Seq<char>,
    nick: Seq<char>,
    client: Seq<char>,
    joiner: u128,
    connections: Map<u128, ConnectionContext>,
    now: Timestamp,
) -> (Map<Seq<char>, Seq<u128>>, Map<u128, Seq<ReplyView>>)
    decreases list.len(),
{
    if list.len() == 0 {
        (start, Map::empty())
    } else {
        let (chans, out) = join_scan(start, list.drop_last(), server_host, nick, client, joiner, connections, now);
        let ch = list.last();
        let members = if chans.contains_key(ch) { with_member(chans[ch], joiner) } else { seq![joiner] };
        let out2 = out.insert(joiner, join_replies(server_host, nick, client, ch, now, member_nicks(members, connections)));
        (chans.insert(ch, members), notify_join(out2, members, joiner, connections, client, ch))
    }
}

fn nicks_of(members: &Vec<u128>, connections: &HashMap<u128, ConnectionContext>) -> (users: Vec<String>)
    ensures
        views(users@) == member_nicks(members@, connections@),
{
    broadcast use vstd::std_specs::hash::group_hash_axioms;
    let mut users: Vec<String> = Vec::new();
    let mut i: usize = 0;
    while i < members.len()
        invariant
            i <= members.len(),
            views(users@) == member_nicks(members@.take(i as int), connections@),
        decreases members.len() - i,
    {
        let m = members[i];
        assert(members@.take(i + 1).drop_last() =~= members@.take(i as int));
        let ghost before = users@;
        match connections.get(&m) {
            Some(other) => {
                match &other.nick {
                    Some(n) => {
                        users.push(n.clone());
                        assert(views(users@) =~= views(before).push(n@));
                    },
                    None => {},
                }
            },
            None => {},
        }
        i = i + 1;
    }
    assert(members@.take(members.len() as int) =~= members@);
    users
}

fn tell_members(
    map: &mut HashMap<u128, Vec<Reply>>,
    members: &Vec<u128>,
    joiner: u128,
    connections: &HashMap<u128, ConnectionContext>,
    client: &str,
    channel: &String,
)
    ensures
        outbox_view(final(map)@) == notify_join(outbox_view(old(map)@), members@, joiner, connections@, client@, channel@),
{
    broadcast use vstd::std_specs::hash::group_hash_axioms;
    let ghost start = outbox_view(map@);
    let mut i: usize = 0;
    while i < members.len()
        invariant
            i <= members.len(),
            outbox_view(map@) == notify_join(start, members@.take(i as int), joiner, connections@, client@, channel@),
        decreases members.len() - i,
    {
        let member = members[i];
        assert(members@.take(i + 1).drop_last() =~= members@.take(i as int));
        if member != joiner {
            match connections.get(&member) {
                Some(other_user) => {
                    let replies = vec![Reply::Join { client: client.to_owned(), channel: channel.clone() }];
                    assert(reply_views(replies@) =~= seq![ReplyView::Join { client: client@, channel: channel@ }]);
                    put(map, other_user.connection_id, replies);
                },
                None => {},
            }
        }
        i = i + 1;
    }
    assert(members@.take(members.len() as int) =~= members@);
}

/// Joins `conn_context` to each channel of `channels_to_join` in turn,
/// with `now` as the time the topics were set. A channel that does not
/// exist is created. For each channel the joiner's replies replace the
/// ones of the channel before, and each other connected member is told
/// of the join.
pub fn handle_join_at(
    server_host: &str,
    nick: &str,
    client: &str,
    conn_context: &ConnectionContext,
    channels: &mut Channels,
    connections: &HashMap<u128, ConnectionContext>,
    channels_to_join: &[String],
    now: Timestamp,
) -> (r: Option<HashMap<u128, Vec<Reply>>>)
    ensures
        ({
            let (chans, out) = join_scan(
                old(channels)@,
                views(channels_to_join@),
                server_host@,
                nick@,
                client@,
                conn_context.connection_id,
                connections@,
                now,
            );
            &&& final(channels)@ == chans
            &&& r matches Some(m) && outbox_view(m@) == out
        }),
{
    broadcast use vstd::std_specs::hash::group_hash_axioms;
    let ghost start = channels@;
    let ghost list = views(channels_to_join@);
    let joiner = conn_context.connection_id;
    let mut map: HashMap<u128, Vec<Reply>> = HashMap::new();
    assert(outbox_view(map@) =~= Map::<u128, Seq<ReplyView>>::empty());
    let mut i: usize = 0;
    while i < channels_to_join.len()
        invariant
            i <= channels_to_join.len(),
            list == views(channels_to_join@),
            joiner == conn_context.connection_id,
            ({
                let (chans, out) = join_scan(start, list.take(i as int), server_host@, nick@, client@, joiner, connections@, now);
                &&& channels@ == chans
                &&& outbox_view(map@) == out
            }),
        decreases channels_to_join.len() - i,
    {
        let channel = &channels_to_join[i];
        proof {
            assert(list.take(i + 1).drop_last() =~= list.take(i as int));
            assert(list.take(i + 1).last() == channel@);
        }
        let ghost had = channels@;
        channels.add_member(channel.as_str(), joiner);
        let chan_ctx = match channels.get(channel.as_str()) {
            Some(c) => c,
            None => {
                i = i + 1;
                continue;
            },
        };
        let channel_users = nicks_of(&chan_ctx.members, connections);
        let replies = vec![
            Reply::Join { client: client.to_owned(), channel: channel.clone() },
            Reply::Topic {
                server_host: server_host.to_owned(),
                nick: nick.to_owned(),
                channel: channel.clone(),
                topic: "foobar topic".to_owned(),
            },
            Reply::TopicWhoTime {
                server_host: server_host.to_owned(),
                channel: channel.clone(),
                nick: nick.to_owned(),
                set_at: now,
            },
            Reply::Nam {
                server_host: server_host.to_owned(),
                nick: nick.to_owned(),
                channel: channel.clone(),
                channel_users,
            },
            Reply::EndOfNames {
                server_host: server_host.to_owned(),
                nick: nick.to_owned(),
                channel: channel.clone(),
            },
        ];
        assert(reply_views(replies@) =~= join_replies(
            server_host@, nick@, client@, channel@, now, member_nicks(chan_ctx.members@, connections@)));
        put(&mut map, joiner, replies);
        tell_members(&mut map, &chan_ctx.members, joiner, connections, client, channel);
        i = i + 1;
    }
    assert(list.take(channels_to_join.len() as int) =~= list);
    Some(map)
}

/// Joins `conn_context` to the channels of `channels_to_join`, as
/// `handle_join_at` does, the topics set at the current time, whatever
/// the clock reads. When the clock cannot be read (it reads before the
/// UNIX epoch or past what chrono holds), nothing changes and nothing is
/// answered.
pub fn handle_join(
    server_host: &str,
    nick: &str,
    client: &str,
    conn_context: &ConnectionContext,
    channels: &mut Channels,
    connections: &HashMap<u128, ConnectionContext>,
    channels_to_join: &[String],
) -> (r: Option<HashMap<u128, Vec<Reply>>>)
    ensures
        r is None ==> final(channels)@ == old(channels)@,
        r is Some ==> exists|now: Timestamp| {
            let (chans, out) = #[trigger] join_scan(
                old(channels)@,
                views(channels_to_join@),
                server_host@,
                nick@,
                client@,
                conn_context.connection_id,
                connections@,
                now,
            );
            &&& final(channels)@ == chans
            &&& r matches Some(m) && outbox_view(m@) == out
        },
{
    let now = match Timestamp::now() {
        Some(t) => t,
        None => return None,
    };
    handle_join_at(server_host, nick, client, conn_context, channels, connections, channels_to_join, now)
}

} // verus!
