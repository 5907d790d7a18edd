//! MODE on a channel: the channel's fixed modes and its creation time.

use vstd::prelude::*;
use std::collections::HashMap;
use crate::context::ConnectionContext;
use crate::message_parsing::opt_view;
use crate::replies::{Reply, ReplyView};
use crate::time::Timestamp;
use super::outbox::{outbox_view, reply_views, single};

verus! {

/// The replies to a MODE query, the channel created at `now`.
pub open spec fn mode_replies(server_host: Seq<char>, nick: Seq<char>, channel: Option<Seq<char>>, now: Timestamp) -> Seq<ReplyView> {
    match channel {
        Some(channel) => seq![
            ReplyView::ChannelModeIs {
                server_host,
                nick,
                channel,
                mode_string: "+mtn1"@,
                mode_arguments: "100"@,
            },
            ReplyView::CreationTime { server_host, nick, channel, created_at: now },
        ],
        None => seq![ReplyView::ErrNeedMoreParams { server_host, nick, command: "MODE"@ }],
    }
}

/// Answers a MODE query from `conn_context`, stamping the channel with `now`.
pub fn handle_mode_at(
    server_host: &str,
    nick: &str,
    channel: &Option<String>,
    conn_context: &ConnectionContext,
    now: Timestamp,
) -> (r: Option<HashMap<u128, Vec<Reply>>>)
    ensures
        r matches Some(m) && outbox_view(m@) == Map::<u128, Seq<ReplyView>>::empty().insert(
            conn_context.connection_id,
            mode_replies(server_host@, nick@, opt_view(*channel), now),
        ),
{
    let replies = match channel {
        Some(channel) => vec![
            Reply::ChannelModeIs {
                server_host: server_host.to_owned(),
                nick: nick.to_owned(),
                channel: channel.clone(),
                mode_string: "+mtn1".to_owned(),
                mode_arguments: "100".to_owned(),
            },
            Reply::CreationTime {
                server_host: server_host.to_owned(),
                nick: nick.to_owned(),
                channel: channel.clone(),
                created_at: now,
            },
        ],
        None => vec![
            Reply::ErrNeedMoreParams {
                server_host: server_host.to_owned(),
                nick: nick.to_owned(),
                command: "MODE".to_owned(),
            },
        ],
    };
    let ghost rv = reply_views(replies@);
    assert(rv =~= mode_replies(server_host@, nick@, opt_view(*channel), now));
    Some(single(conn_context.connection_id, replies))
}

/// Answers a MODE query from `conn_context`. Without a channel it answers
/// that a parameter is missing; with one, the channel's creation time is
/// the current time, whatever the clock reads, and when the clock cannot
/// be read (it reads before the UNIX epoch or past what chrono holds)
/// nothing is answered.
pub fn handle_mode(
    server_host: &str,
    nick: &str,
    channel: &Option<String>,
    conn_context: &ConnectionContext,
) -> (r: Option<HashMap<u128, Vec<Reply>>>)
    ensures
        channel is None ==> (r matches Some(m) && outbox_view(m@) == Map::<u128, Seq<ReplyView>>::empty().insert(
            conn_context.connection_id,
            seq![ReplyView::ErrNeedMoreParams { server_host: server_host@, nick: nick@, command: "MODE"@ }],
        )),
        r matches Some(m) ==> exists|now: Timestamp| outbox_view(m@) == Map::<u128, Seq<ReplyView>>::empty().insert(
            conn_context.connection_id,
            #[trigger] mode_replies(server_host@, nick@, opt_view(*channel), now),
        ),
{
    match channel {
        None => {
            let replies = vec![
                Reply::ErrNeedMoreParams {
                    server_host: server_host.to_owned(),
                    nick: nick.to_owned(),
                    command: "MODE".to_owned(),
                },
            ];
            let ghost rv = reply_views(replies@);
            assert(rv =~= seq![ReplyView::ErrNeedMoreParams { server_host: server_host@, nick: nick@, command: "MODE"@ }]);
            let r = single(conn_context.connection_id, replies);
            proof {
                let t: Timestamp = arbitrary();
                assert(mode_replies(server_host@, nick@, opt_view(*channel), t) == rv);
            }
            Some(r)
        },
        Some(_) => {
            let now = match Timestamp::now() {
                Some(t) => t,
                None => return None,
            };
            let r = handle_mode_at(server_host, nick, channel, conn_context, now);
            assert(mode_replies(server_host@, nick@, opt_view(*channel), now) == mode_replies(server_host@, nick@, opt_view(*channel), now));
            r
        },
    }
}

} // verus!
