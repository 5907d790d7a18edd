//! WHO: lists the members of a channel, or else the connections whose
//! hostmask matches the given mask.

use vstd::prelude::*;
use vstd::string::StringExecFns;
use vstd::std_specs::hash::spec_hash_map_iter;
use vstd::std_specs::iter::IteratorSpec;
use std::collections::HashMap;
use crate::context::{Channels, ConnectionContext};
use crate::message_parsing::opt_view;
use crate::replies::{Reply, ReplyView};
use crate::util::{mask_matches, match_mask};
use super::outbox::reply_views;

verus! {

/// An optional text, or the empty text.
pub open spec fn or_empty(o: Option<Seq<char>>) -> Seq<char> {
    match o {
        Some(s) => s,
        None => seq![],
    }
}

/// The address shown for a connection whose address is unknown.
pub open spec fn default_host() -> Seq<char> {
    "127.0.0.1:1234"@
}

/// A connection's address, or the default one.
pub open spec fn host_or_default(o: Option<Seq<char>>) -> Seq<char> {
    match o {
        Some(s) => s,
        None => default_host(),
    }
}

/// The hostmask `nick!user@host` of a connection.
pub open spec fn hostmask(c: ConnectionContext) -> Seq<char> {
    or_empty(opt_view(c.nick)) + "!"@ + or_empty(opt_view(c.user)) + "@"@ + host_or_default(opt_view(c.client_host))
}

/// The ids, in the given order, of the connections whose hostmask
/// matches `mask`.
pub open spec fn mask_members(entries: Seq<(u128, ConnectionContext)>, mask: Seq<char>) -> Seq<u128>
    decreases entries.len(),
{
    if entries.len() == 0 {
        seq![]
    } else {
        let r = mask_members(entries.drop_last(), mask);
        let (k, v) = entries.last();
        if mask_matches(hostmask(v), mask) {
            r.push(k)
        } else {
            r
        }
    }
}

/// One WHO line for each of `users` that is connected, in order.
pub open spec fn who_lines(
    users: Seq<u128>,
    connections: Map<u128, ConnectionContext>,
    server_host: Seq<char>,
    nick: Seq<char>,
    label: Seq<char>,
) -> Seq<ReplyView>
    decreases users.len(),
{
    if users.len() == 0 {
        seq![]
    } else {
        let rest = who_lines(users.drop_last(), connections, server_host, nick, label);
        let u = users.last();
        if connections.contains_key(u) {
            let c = connections[u];
            rest.push(ReplyView::Who {
                server_host,
                nick,
                channel: label,
                other_user: or_empty(opt_view(c.user)),
                other_host: host_or_default(opt_view(c.client_host)),
                other_server: server_host,
                other_nick: or_empty(opt_view(c.nick)),
                other_realname: or_empty(opt_view(c.real_name)),
            })
        } else {
            rest
        }
    }
}

/// The answer to WHO `mask`: the members of the channel called `mask`
/// if there is one, else the connections (taken in `order`) whose
/// hostmask matches `mask`; then the end of the list.
pub open spec fn who_replies(
    mask: Seq<char>,
    server_host: Seq<char>,
    nick: Seq<char>,
    chans: Map<Seq<char>, Seq<u128>>,
    connections: Map<u128, ConnectionContext>,
    order: Seq<(u128, ConnectionContext)>,
) -> Seq<ReplyView> {
    let is_channel = chans.contains_key(mask);
    let users = if is_channel { chans[mask] } else { mask_members(order, mask) };
    let label = if is_channel { mask } else { "*"@ };
    who_lines(users, connections, server_host, nick, label).push(
        ReplyView::EndOfWho { server_host, nick, mask },
    )
}

fn text_or_empty(o: &Option<String>) -> (s: String)
    ensures
        s@ == or_empty(opt_view(*o)),
{
    match o {
        Some(s) => s.clone(),
        None => String::new(),
    }
}

fn host_text(o: &Option<String>) -> (s: String)
    ensures
        s@ == host_or_default(opt_view(*o)),
{
    match o {
        Some(s) => s.clone(),
        None => "127.0.0.1:1234".to_owned(),
    }
}

/// The hostmask of a connection.
pub fn hostmask_of(c: &ConnectionContext) -> (s: String)
    ensures
        s@ == hostmask(*c),
{
    let mut s = text_or_empty(&c.nick);
    s.append("!");
    s.append(text_or_empty(&c.user).as_str());
    s.append("@");
    s.append(host_text(&c.client_host).as_str());
    s
}

/// Whatever order the connection map yields its entries in, the ids
/// listed for `mask` are exactly those of the connections whose hostmask
/// matches it.
proof fn lemma_listed_exactly(conn_read: &HashMap<u128, ConnectionContext>, mask: Seq<char>)
    ensures
        forall|k: u128| #[trigger] mask_members(spec_hash_map_iter(conn_read).remaining().unref(), mask).contains(k)
            <==> conn_read@.contains_key(k) && mask_matches(hostmask(conn_read@[k]), mask),
{
    broadcast use vstd::std_specs::hash::group_hash_axioms;
    let v = spec_hash_map_iter(conn_read).remaining();
    let order = v.unref();
    let m = conn_read@;
    assert forall|i: int| 0 <= i < order.len() implies m.contains_key(#[trigger] order[i].0) && m[order[i].0] == order[i].1 by {
        assert(m.contains_key(*v[i].0) && m[*v[i].0] == *v[i].1);
    }
    assert forall|k: u128| #[trigger] m.contains_key(k) implies order.contains((k, m[k])) by {
        assert(v.contains((&k, &m[k])));
        let i = choose|i: int| 0 <= i < v.len() && v[i] == (&k, &m[k]);
        assert(order[i] == (k, m[k]));
    }
    crate::laws::law_who_lists_exactly_the_matching(m, order, mask);
}

fn matching_connections(conn_read: &HashMap<u128, ConnectionContext>, mask: &String) -> (members: Vec<u128>)
    ensures
        members@ == mask_members(spec_hash_map_iter(conn_read).remaining().unref(), mask@),
        forall|k: u128| #[trigger] members@.contains(k)
            <==> conn_read@.contains_key(k) && mask_matches(hostmask(conn_read@[k]), mask@),
{
    proof {
        lemma_listed_exactly(conn_read, mask@);
    }
    broadcast use vstd::std_specs::hash::group_hash_axioms;
    let mut members: Vec<u128> = Vec::new();
    let ghost order = spec_hash_map_iter(conn_read).remaining().unref();
    for (k, v) in it: conn_read.iter()
        invariant
            it.seq() == spec_hash_map_iter(conn_read).remaining(),
            order == it.seq().unref(),
            members@ == mask_members(order.take(it.index() as int), mask@),
    {
        let ghost i = it.index() as int;
        assert(order.take(i + 1).drop_last() =~= order.take(i));
        assert(order.take(i + 1).last() == (*k, *v));
        let hm = hostmask_of(v);
        if match_mask(hm.as_str(), mask.as_str()) {
            members.push(*k);
        }
    }
    assert(order.take(order.len() as int) =~= order);
    members
}

/// Answers WHO `mask`: for a channel called `mask`, a line for each of
/// its connected members; otherwise a line for each connection (in the
/// order the connection map yields them) whose hostmask matches `mask`;
/// then the end of the list. Without a mask it answers that parameters
/// are missing.
pub fn handle_who(
    mask: &Option<String>,
    server_host: &str,
    nick: &str,
    srv_channels: &Channels,
    conn_read: &HashMap<u128, ConnectionContext>,
) -> (replies: Vec<Reply>)
    ensures
        reply_views(replies@) == match *mask {
            None => seq![ReplyView::ErrNeedMoreParams { server_host: server_host@, nick: nick@, command: "WHO"@ }],
            Some(m) => who_replies(
                m@,
                server_host@,
                nick@,
                srv_channels@,
                conn_read@,
                spec_hash_map_iter(conn_read).remaining().unref(),
            ),
        },
        match *mask {
            Some(m) => !srv_channels@.contains_key(m@) ==> forall|k: u128|
                #[trigger] mask_members(spec_hash_map_iter(conn_read).remaining().unref(), m@).contains(k)
                    <==> conn_read@.contains_key(k) && mask_matches(hostmask(conn_read@[k]), m@),
            None => true,
        },
{
    broadcast use vstd::std_specs::hash::group_hash_axioms;
    proof {
        if let Some(m) = mask {
            lemma_listed_exactly(conn_read, m@);
        }
    }
    let mask = match mask {
        Some(m) => m,
        None => {
            let replies = vec![Reply::ErrNeedMoreParams {
                server_host: server_host.to_owned(),
                nick: nick.to_owned(),
                command: "WHO".to_owned(),
            }];
            assert(reply_views(replies@) =~= seq![ReplyView::ErrNeedMoreParams { server_host: server_host@, nick: nick@, command: "WHO"@ }]);
            return replies;
        },
    };
    let (users, label) = match srv_channels.get(mask.as_str()) {
        Some(c) => (c.members.clone(), mask.clone()),
        None => (matching_connections(conn_read, mask), "*".to_owned()),
    };
    let mut replies: Vec<Reply> = Vec::new();
    let mut i: usize = 0;
    while i < users.len()
        invariant
            i <= users.len(),
            reply_views(replies@) == who_lines(users@.take(i as int), conn_read@, server_host@, nick@, label@),
        decreases users.len() - i,
    {
        let user = users[i];
        assert(users@.take(i + 1).drop_last() =~= users@.take(i as int));
        let ghost before = replies@;
        match conn_read.get(&user) {
            Some(other_user) => {
                let r = Reply::Who {
                    server_host: server_host.to_owned(),
                    nick: nick.to_owned(),
                    channel: label.clone(),
                    other_user: text_or_empty(&other_user.user),
                    other_host: host_text(&other_user.client_host),
                    other_server: server_host.to_owned(),
                    other_nick: text_or_empty(&other_user.nick),
                    other_realname: text_or_empty(&other_user.real_name),
                };
                replies.push(r);
                assert(reply_views(replies@) =~= reply_views(before).push(r@));
            },
            None => {},
        }
        i = i + 1;
    }
    assert(users@.take(users.len() as int) =~= users@);
    let ghost before = replies@;
    let end = Reply::EndOfWho { server_host: server_host.to_owned(), nick: nick.to_owned(), mask: mask.clone() };
    replies.push(end);
    assert(reply_views(replies@) =~= reply_views(before).push(end@));
    replies
}

} // verus!
