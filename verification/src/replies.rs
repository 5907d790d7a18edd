//! The replies the server sends to clients and their wire text.

use vstd::prelude::*;
use vstd::string::StringExecFns;
use crate::message_parsing::opt_view;
use crate::text::{decimal, push_decimal};
use crate::time::{Timestamp, timestamp_text};
use crate::tokens::views;

verus! {

/// A reply to a client: numeric replies, errors, and relayed commands.
pub enum Reply {
    Welcome { server_host: String, nick: String },
    YourHost { server_host: String, nick: String, version: String },
    Created { server_host: String, nick: String, created_at: Timestamp },
    MyInfo { server_host: String, nick: String, version: String, user_modes: String, channel_modes: String },
    Support { server_host: String, nick: String, channel_len: u32 },
    StatsDLine { server_host: String, nick: String, connections: u32, clients: u32, received: u32 },
    LuserClient { server_host: String, nick: String, visible_users: u32, invisible_users: u32, servers: u32 },
    LuserOp { server_host: String, nick: String, operators: u32 },
    LuserUnknown { server_host: String, nick: String, unknown: u32 },
    LuserChannels { server_host: String, nick: String, channels: u32 },
    LuserMe { server_host: String, nick: String, clients: u32, servers: u32 },
    LocalUsers { server_host: String, nick: String, current: u32, max: u32 },
    GlobalUsers { server_host: String, nick: String, current: u32, max: u32 },
    EndOfWho { server_host: String, nick: String, mask: String },
    ListEnd { server_host: String },
    ChannelModeIs { server_host: String, nick: String, channel: String, mode_string: String, mode_arguments: String },
    CreationTime { server_host: String, nick: String, channel: String, created_at: Timestamp },
    Topic { server_host: String, nick: String, channel: String, topic: String },
    TopicWhoTime { server_host: String, channel: String, nick: String, set_at: Timestamp },
    Who { server_host: String, nick: String, channel: String, other_user: String, other_host: String, other_server: String, other_nick: String, other_realname: String },
    Nam { server_host: String, nick: String, channel: String, channel_users: Vec<String> },
    EndOfNames { server_host: String, nick: String, channel: String },
    Motd { server_host: String, nick: String, line: String },
    MotdStart { server_host: String, nick: String },
    EndOfMotd { server_host: String, nick: String },
    Ping { server_host: String },
    Pong { server_host: String, token: String },
    Join { client: String, channel: String },
    Part { client: String, channel: String },
    PrivMsg { client_host: Option<String>, nick: Option<String>, user: Option<String>, channel: String, message: String },
    Quit { connection_id: u128, client_host: Option<String>, nick: Option<String>, user: Option<String>, message: String },
    ErrNeedMoreParams { server_host: String, nick: String, command: String },
    ErrNoNickGiven { server_host: String },
    ErrNoSuchChannel { server_host: String, channel: String },
    ErrNotOnChannel { server_host: String, channel: String },
}

/// A reply with its strings taken by their views.
pub enum ReplyView {
    Welcome { server_host: Seq<char>, nick: Seq<char> },
    YourHost { server_host: Seq<char>, nick: Seq<char>, version: Seq<char> },
    Created { server_host: Seq<char>, nick: Seq<char>, created_at: Timestamp },
    MyInfo { server_host: Seq<char>, nick: Seq<char>, version: Seq<char>, user_modes: Seq<char>, channel_modes: Seq<char> },
    Support { server_host: Seq<char>, nick: Seq<char>, channel_len: u32 },
    StatsDLine { server_host: Seq<char>, nick: Seq<char>, connections: u32, clients: u32, received: u32 },
    LuserClient { server_host: Seq<char>, nick: Seq<char>, visible_users: u32, invisible_users: u32, servers: u32 },
    LuserOp { server_host: Seq<char>, nick: Seq<char>, operators: u32 },
    LuserUnknown { server_host: Seq<char>, nick: Seq<char>, unknown: u32 },
    LuserChannels { server_host: Seq<char>, nick: Seq<char>, channels: u32 },
    LuserMe { server_host: Seq<char>, nick: Seq<char>, clients: u32, servers: u32 },
    LocalUsers { server_host: Seq<char>, nick: Seq<char>, current: u32, max: u32 },
    GlobalUsers { server_host: Seq<char>, nick: Seq<char>, current: u32, max: u32 },
    EndOfWho { server_host: Seq<char>, nick: Seq<char>, mask: Seq<char> },
    ListEnd { server_host: Seq<char> },
    ChannelModeIs { server_host: Seq<char>, nick: Seq<char>, channel: Seq<char>, mode_string: Seq<char>, mode_arguments: Seq<char> },
    CreationTime { server_host: Seq<char>, nick: Seq<char>, channel: Seq<char>, created_at: Timestamp },
    Topic { server_host: Seq<char>, nick: Seq<char>, channel: Seq<char>, topic: Seq<char> },
    TopicWhoTime { server_host: Seq<char>, channel: Seq<char>, nick: Seq<char>, set_at: Timestamp },
    Who { server_host: Seq<char>, nick: Seq<char>, channel: Seq<char>, other_user: Seq<char>, other_host: Seq<char>, other_server: Seq<char>, other_nick: Seq<char>, other_realname: Seq<char> },
    Nam { server_host: Seq<char>, nick: Seq<char>, channel: Seq<char>, channel_users: Seq<Seq<char>> },
    EndOfNames { server_host: Seq<char>, nick: Seq<char>, channel: Seq<char> },
    Motd { server_host: Seq<char>, nick: Seq<char>, line: Seq<char> },
    MotdStart { server_host: Seq<char>, nick: Seq<char> },
    EndOfMotd { server_host: Seq<char>, nick: Seq<char> },
    Ping { server_host: Seq<char> },
    Pong { server_host: Seq<char>, token: Seq<char> },
    Join { client: Seq<char>, channel: Seq<char> },
    Part { client: Seq<char>, channel: Seq<char> },
    PrivMsg { client_host: Option<Seq<char>>, nick: Option<Seq<char>>, user: Option<Seq<char>>, channel: Seq<char>, message: Seq<char> },
    Quit { connection_id: u128, client_host: Option<Seq<char>>, nick: Option<Seq<char>>, user: Option<Seq<char>>, message: Seq<char> },
    ErrNeedMoreParams { server_host: Seq<char>, nick: Seq<char>, command: Seq<char> },
    ErrNoNickGiven { server_host: Seq<char> },
    ErrNoSuchChannel { server_host: Seq<char>, channel: Seq<char> },
    ErrNotOnChannel { server_host: Seq<char>, channel: Seq<char> },
}

impl View for Reply {
    type V = ReplyView;

    open spec fn view(&self) -> ReplyView {
        match self {
            Reply::Welcome { server_host, nick } => ReplyView::Welcome { server_host: server_host@, nick: nick@ },
            Reply::YourHost { server_host, nick, version } => ReplyView::YourHost { server_host: server_host@, nick: nick@, version: version@ },
            Reply::Created { server_host, nick, created_at } => ReplyView::Created { server_host: server_host@, nick: nick@, created_at: *created_at },
            Reply::MyInfo { server_host, nick, version, user_modes, channel_modes } => ReplyView::MyInfo { server_host: server_host@, nick: nick@, version: version@, user_modes: user_modes@, channel_modes: channel_modes@ },
            Reply::Support { server_host, nick, channel_len } => ReplyView::Support { server_host: server_host@, nick: nick@, channel_len: *channel_len },
            Reply::StatsDLine { server_host, nick, connections, clients, received } => ReplyView::StatsDLine { server_host: server_host@, nick: nick@, connections: *connections, clients: *clients, received: *received },
            Reply::LuserClient { server_host, nick, visible_users, invisible_users, servers } => ReplyView::LuserClient { server_host: server_host@, nick: nick@, visible_users: *visible_users, invisible_users: *invisible_users, servers: *servers },
            Reply::LuserOp { server_host, nick, operators } => ReplyView::LuserOp { server_host: server_host@, nick: nick@, operators: *operators },
            Reply::LuserUnknown { server_host, nick, unknown } => ReplyView::LuserUnknown { server_host: server_host@, nick: nick@, unknown: *unknown },
            Reply::LuserChannels { server_host, nick, channels } => ReplyView::LuserChannels { server_host: server_host@, nick: nick@, channels: *channels },
            Reply::LuserMe { server_host, nick, clients, servers } => ReplyView::LuserMe { server_host: server_host@, nick: nick@, clients: *clients, servers: *servers },
            Reply::LocalUsers { server_host, nick, current, max } => ReplyView::LocalUsers { server_host: server_host@, nick: nick@, current: *current, max: *max },
            Reply::GlobalUsers { server_host, nick, current, max } => ReplyView::GlobalUsers { server_host: server_host@, nick: nick@, current: *current, max: *max },
            Reply::EndOfWho { server_host, nick, mask } => ReplyView::EndOfWho { server_host: server_host@, nick: nick@, mask: mask@ },
            Reply::ListEnd { server_host } => ReplyView::ListEnd { server_host: server_host@ },
            Reply::ChannelModeIs { server_host, nick, channel, mode_string, mode_arguments } => ReplyView::ChannelModeIs { server_host: server_host@, nick: nick@, channel: channel@, mode_string: mode_string@, mode_arguments: mode_arguments@ },
            Reply::CreationTime { server_host, nick, channel, created_at } => ReplyView::CreationTime { server_host: server_host@, nick: nick@, channel: channel@, created_at: *created_at },
            Reply::Topic { server_host, nick, channel, topic } => ReplyView::Topic { server_host: server_host@, nick: nick@, channel: channel@, topic: topic@ },
            Reply::TopicWhoTime { server_host, channel, nick, set_at } => ReplyView::TopicWhoTime { server_host: server_host@, channel: channel@, nick: nick@, set_at: *set_at },
            Reply::Who { server_host, nick, channel, other_user, other_host, other_server, other_nick, other_realname } => ReplyView::Who { server_host: server_host@, nick: nick@, channel: channel@, other_user: other_user@, other_host: other_host@, other_server: other_server@, other_nick: other_nick@, other_realname: other_realname@ },
            Reply::Nam { server_host, nick, channel, channel_users } => ReplyView::Nam { server_host: server_host@, nick: nick@, channel: channel@, channel_users: views(channel_users@) },
            Reply::EndOfNames { server_host, nick, channel } => ReplyView::EndOfNames { server_host: server_host@, nick: nick@, channel: channel@ },
            Reply::Motd { server_host, nick, line } => ReplyView::Motd { server_host: server_host@, nick: nick@, line: line@ },
            Reply::MotdStart { server_host, nick } => ReplyView::MotdStart { server_host: server_host@, nick: nick@ },
            Reply::EndOfMotd { server_host, nick } => ReplyView::EndOfMotd { server_host: server_host@, nick: nick@ },
            Reply::Ping { server_host } => ReplyView::Ping { server_host: server_host@ },
            Reply::Pong { server_host, token } => ReplyView::Pong { server_host: server_host@, token: token@ },
            Reply::Join { client, channel } => ReplyView::Join { client: client@, channel: channel@ },
            Reply::Part { client, channel } => ReplyView::Part { client: client@, channel: channel@ },
            Reply::PrivMsg { client_host, nick, user, channel, message } => ReplyView::PrivMsg { client_host: opt_view(*client_host), nick: opt_view(*nick), user: opt_view(*user), channel: channel@, message: message@ },
            Reply::Quit { connection_id, client_host, nick, user, message } => ReplyView::Quit { connection_id: *connection_id, client_host: opt_view(*client_host), nick: opt_view(*nick), user: opt_view(*user), message: message@ },
            Reply::ErrNeedMoreParams { server_host, nick, command } => ReplyView::ErrNeedMoreParams { server_host: server_host@, nick: nick@, command: command@ },
            Reply::ErrNoNickGiven { server_host } => ReplyView::ErrNoNickGiven { server_host: server_host@ },
            Reply::ErrNoSuchChannel { server_host, channel } => ReplyView::ErrNoSuchChannel { server_host: server_host@, channel: channel@ },
            Reply::ErrNotOnChannel { server_host, channel } => ReplyView::ErrNotOnChannel { server_host: server_host@, channel: channel@ },
        }
    }
}

/// The names of a channel's users, separated by single spaces.
pub open spec fn spaced_names(users: Seq<Seq<char>>) -> Seq<char>
    decreases users.len(),
{
    if users.len() == 0 {
        seq![]
    } else if users.len() == 1 {
        users[0]
    } else {
        spaced_names(users.drop_last()) + " "@ + users.last()
    }
}

/// The source prefix of a relayed message: `:nick`, then `!user` and
/// `@host` where they are known; nothing when the nick is unknown.
pub open spec fn source_prefix(nick: Option<Seq<char>>, user: Option<Seq<char>>, host: Option<Seq<char>>) -> Seq<char> {
    match nick {
        Some(n) => {
            let with_user = match user {
                Some(u) => ":"@ + n + "!"@ + u,
                None => ":"@ + n,
            };
            match host {
                Some(h) => with_user + "@"@ + h,
                None => with_user,
            }
        },
        None => seq![],
    }
}

/// The wire text of a reply, without the line terminator.
pub open spec fn reply_text(r: ReplyView) -> Seq<char> {
    match r {
        ReplyView::Welcome { server_host, nick } =>
            Seq::<char>::empty() + ":"@ + server_host + " 001 "@ + nick + " :Welcome to the server "@ + nick,
        ReplyView::YourHost { server_host, nick, version } =>
            Seq::<char>::empty() + ":"@ + server_host + " 002 "@ + nick + " :Your host is "@ + server_host + ", running version "@ + version,
        ReplyView::Created { server_host, nick, created_at } =>
            Seq::<char>::empty() + ":"@ + server_host + " 003 "@ + nick + " :This server was created "@ + timestamp_text(created_at),
        ReplyView::MyInfo { server_host, nick, version, user_modes, channel_modes } =>
            Seq::<char>::empty() + ":"@ + server_host + " 004 "@ + nick + " "@ + server_host + " "@ + version + " "@ + user_modes + " "@ + channel_modes,
        ReplyView::Support { server_host, nick, channel_len } =>
            Seq::<char>::empty() + ":"@ + server_host + " 005 "@ + nick + " CHANNELLEN="@ + decimal(channel_len as nat) + " :are supported by this server"@,
        ReplyView::StatsDLine { server_host, nick, connections, clients, received } =>
            Seq::<char>::empty() + ":"@ + server_host + " 250 "@ + nick + " :Highest connection count: "@ + decimal(connections as nat) + " ("@ + decimal(clients as nat) + " clients) ("@ + decimal(received as nat) + " connections received)"@,
        ReplyView::LuserClient { server_host, nick, visible_users, invisible_users, servers } =>
            Seq::<char>::empty() + ":"@ + server_host + " 251 "@ + nick + " :There are "@ + decimal(visible_users as nat) + " users and "@ + decimal(invisible_users as nat) + " invisible on "@ + decimal(servers as nat) + " servers"@,
        ReplyView::LuserOp { server_host, nick, operators } =>
            Seq::<char>::empty() + ":"@ + server_host + " 252 "@ + nick + " "@ + decimal(operators as nat) + " :IRC Operators online"@,
        ReplyView::LuserUnknown { server_host, nick, unknown } =>
            Seq::<char>::empty() + ":"@ + server_host + " 253 "@ + nick + " "@ + decimal(unknown as nat) + " :unknown connection(s)"@,
        ReplyView::LuserChannels { server_host, nick, channels } =>
            Seq::<char>::empty() + ":"@ + server_host + " 254 "@ + nick + " "@ + decimal(channels as nat) + " :channels formed"@,
        ReplyView::LuserMe { server_host, nick, clients, servers } =>
            Seq::<char>::empty() + ":"@ + server_host + " 255 "@ + nick + " :I have "@ + decimal(clients as nat) + " clients and "@ + decimal(servers as nat) + " servers"@,
        ReplyView::LocalUsers { server_host, nick, current, max } =>
            Seq::<char>::empty() + ":"@ + server_host + " 265 "@ + nick + " "@ + decimal(current as nat) + " "@ + decimal(max as nat) + " :Current local users "@ + decimal(current as nat) + ", max "@ + decimal(max as nat),
        ReplyView::GlobalUsers { server_host, nick, current, max } =>
            Seq::<char>::empty() + ":"@ + server_host + " 266 "@ + nick + " "@ + decimal(current as nat) + " "@ + decimal(max as nat) + " :Current global users "@ + decimal(current as nat) + ", max "@ + decimal(max as nat),
        ReplyView::EndOfWho { server_host, nick, mask } =>
            Seq::<char>::empty() + ":"@ + server_host + " 315 "@ + nick + " "@ + mask + " :End of /WHO list."@,
        ReplyView::ListEnd { server_host } =>
            Seq::<char>::empty() + ":"@ + server_host + " 323 :End of /LIST"@,
        ReplyView::ChannelModeIs { server_host, nick, channel, mode_string, mode_arguments } =>
            Seq::<char>::empty() + ":"@ + server_host + " 324 "@ + nick + " "@ + channel + " "@ + mode_string + " "@ + mode_arguments,
        ReplyView::CreationTime { server_host, nick, channel, created_at } =>
            Seq::<char>::empty() + ":"@ + server_host + " 329 "@ + nick + " "@ + channel + " "@ + timestamp_text(created_at),
        ReplyView::Topic { server_host, nick, channel, topic } =>
            Seq::<char>::empty() + ":"@ + server_host + " 332 "@ + nick + " "@ + channel + " :"@ + topic,
        ReplyView::TopicWhoTime { server_host, channel, nick, set_at } =>
            Seq::<char>::empty() + ":"@ + server_host + " 333 "@ + nick + " "@ + channel + " "@ + timestamp_text(set_at),
        ReplyView::Who { server_host, nick, channel, other_user, other_host, other_server, other_nick, other_realname } =>
            Seq::<char>::empty() + ":"@ + server_host + " 352 "@ + nick + " "@ + channel + " "@ + other_user + " "@ + other_host + " "@ + other_server + " "@ + other_nick + " H@ :0 "@ + other_realname,
        ReplyView::Nam { server_host, nick, channel, channel_users } =>
            Seq::<char>::empty() + ":"@ + server_host + " 353 "@ + nick + " = "@ + channel + " :"@ + spaced_names(channel_users),
        ReplyView::EndOfNames { server_host, nick, channel } =>
            Seq::<char>::empty() + ":"@ + server_host + " 366 "@ + nick + " "@ + channel + " :End of /NAMES list."@,
        ReplyView::Motd { server_host, nick, line } =>
            Seq::<char>::empty() + ":"@ + server_host + " 372 "@ + nick + " :- "@ + line,
        ReplyView::MotdStart { server_host, nick } =>
            Seq::<char>::empty() + ":"@ + server_host + " 375 "@ + nick + " :- "@ + server_host + " Message of the Day -"@,
        ReplyView::EndOfMotd { server_host, nick } =>
            Seq::<char>::empty() + ":"@ + server_host + " 376 "@ + nick + " :End of /MOTD command."@,
        ReplyView::Ping { server_host } =>
            Seq::<char>::empty() + ":"@ + server_host + " PING"@,
        ReplyView::Pong { server_host, token } =>
            Seq::<char>::empty() + ":"@ + server_host + " PONG "@ + server_host + " :"@ + token,
        ReplyView::Join { client, channel } =>
            Seq::<char>::empty() + ":"@ + client + " JOIN :"@ + channel,
        ReplyView::Part { client, channel } =>
            Seq::<char>::empty() + ":"@ + client + " PART "@ + channel,
        ReplyView::PrivMsg { client_host, nick, user, channel, message } =>
            Seq::<char>::empty() + source_prefix(nick, user, client_host) + " PRIVMSG "@ + channel + " :"@ + message,
        ReplyView::Quit { connection_id, client_host, nick, user, message } =>
            Seq::<char>::empty() + source_prefix(nick, user, client_host) + " QUIT :"@ + message,
        ReplyView::ErrNeedMoreParams { server_host, nick, command } =>
            Seq::<char>::empty() + ":"@ + server_host + " 461 "@ + nick + " "@ + command + " :Not enough parameters"@,
        ReplyView::ErrNoNickGiven { server_host } =>
            Seq::<char>::empty() + ":"@ + server_host + " 431 :No nickname given"@,
        ReplyView::ErrNoSuchChannel { server_host, channel } =>
            Seq::<char>::empty() + ":"@ + server_host + " 403 "@ + channel + " :No such channel"@,
        ReplyView::ErrNotOnChannel { server_host, channel } =>
            Seq::<char>::empty() + ":"@ + server_host + " 442 "@ + channel + " :You're not on that channel"@,
    }
}

/// The server host and the three-digit code of a numeric reply; `None`
/// for the relayed commands (PING, PONG, JOIN, PART, PRIVMSG, QUIT).
pub open spec fn numeric_of(r: ReplyView) -> Option<(Seq<char>, Seq<char>)> {
    match r {
        ReplyView::Welcome { server_host, .. } => Some((server_host, seq!['0', '0', '1'])),
        ReplyView::YourHost { server_host, .. } => Some((server_host, seq!['0', '0', '2'])),
        ReplyView::Created { server_host, .. } => Some((server_host, seq!['0', '0', '3'])),
        ReplyView::MyInfo { server_host, .. } => Some((server_host, seq!['0', '0', '4'])),
        ReplyView::Support { server_host, .. } => Some((server_host, seq!['0', '0', '5'])),
        ReplyView::StatsDLine { server_host, .. } => Some((server_host, seq!['2', '5', '0'])),
        ReplyView::LuserClient { server_host, .. } => Some((server_host, seq!['2', '5', '1'])),
        ReplyView::LuserOp { server_host, .. } => Some((server_host, seq!['2', '5', '2'])),
        ReplyView::LuserUnknown { server_host, .. } => Some((server_host, seq!['2', '5', '3'])),
        ReplyView::LuserChannels { server_host, .. } => Some((server_host, seq!['2', '5', '4'])),
        ReplyView::LuserMe { server_host, .. } => Some((server_host, seq!['2', '5', '5'])),
        ReplyView::LocalUsers { server_host, .. } => Some((server_host, seq!['2', '6', '5'])),
        ReplyView::GlobalUsers { server_host, .. } => Some((server_host, seq!['2', '6', '6'])),
        ReplyView::EndOfWho { server_host, .. } => Some((server_host, seq!['3', '1', '5'])),
        ReplyView::ListEnd { server_host, .. } => Some((server_host, seq!['3', '2', '3'])),
        ReplyView::ChannelModeIs { server_host, .. } => Some((server_host, seq!['3', '2', '4'])),
        ReplyView::CreationTime { server_host, .. } => Some((server_host, seq!['3', '2', '9'])),
        ReplyView::Topic { server_host, .. } => Some((server_host, seq!['3', '3', '2'])),
        ReplyView::TopicWhoTime { server_host, .. } => Some((server_host, seq!['3', '3', '3'])),
        ReplyView::Who { server_host, .. } => Some((server_host, seq!['3', '5', '2'])),
        ReplyView::Nam { server_host, .. } => Some((server_host, seq!['3', '5', '3'])),
        ReplyView::EndOfNames { server_host, .. } => Some((server_host, seq!['3', '6', '6'])),
        ReplyView::Motd { server_host, .. } => Some((server_host, seq!['3', '7', '2'])),
        ReplyView::MotdStart { server_host, .. } => Some((server_host, seq!['3', '7', '5'])),
        ReplyView::EndOfMotd { server_host, .. } => Some((server_host, seq!['3', '7', '6'])),
        ReplyView::Ping { .. } => None,
        ReplyView::Pong { .. } => None,
        ReplyView::Join { .. } => None,
        ReplyView::Part { .. } => None,
        ReplyView::PrivMsg { .. } => None,
        ReplyView::Quit { .. } => None,
        ReplyView::ErrNeedMoreParams { server_host, .. } => Some((server_host, seq!['4', '6', '1'])),
        ReplyView::ErrNoNickGiven { server_host, .. } => Some((server_host, seq!['4', '3', '1'])),
        ReplyView::ErrNoSuchChannel { server_host, .. } => Some((server_host, seq!['4', '0', '3'])),
        ReplyView::ErrNotOnChannel { server_host, .. } => Some((server_host, seq!['4', '4', '2'])),
    }
}

fn push_spaced_names(s: &mut String, users: &Vec<String>)
    ensures
        final(s)@ == old(s)@ + spaced_names(views(users@)),
{
    let ghost start = s@;
    let mut i: usize = 0;
    while i < users.len()
        invariant
            i <= users.len(),
            s@ == start + spaced_names(views(users@).take(i as int)),
        decreases users.len() - i,
    {
        let ghost before = s@;
        proof {
            let t = views(users@).take(i + 1);
            assert(t.drop_last() =~= views(users@).take(i as int));
            assert(t.last() == users@[i as int]@);
        }
        if i == 0 {
            s.append(users[i].as_str());
            assert(views(users@).take(1) =~= seq![users@[0]@]);
        } else {
            s.append(" ");
            s.append(users[i].as_str());
        }
        assert(s@ =~= start + spaced_names(views(users@).take(i + 1)));
        i = i + 1;
    }
    assert(views(users@).take(users.len() as int) =~= views(users@));
}

fn push_source_prefix(s: &mut String, nick: &Option<String>, user: &Option<String>, host: &Option<String>)
    ensures
        final(s)@ == old(s)@ + source_prefix(opt_view(*nick), opt_view(*user), opt_view(*host)),
{
    let ghost start = s@;
    match nick {
        Some(n) => {
            s.append(":");
            s.append(n.as_str());
            match user {
                Some(u) => {
                    s.append("!");
                    s.append(u.as_str());
                },
                None => {},
            }
            match host {
                Some(h) => {
                    s.append("@");
                    s.append(h.as_str());
                },
                None => {},
            }
        },
        None => {},
    }
    assert(s@ =~= start + source_prefix(opt_view(*nick), opt_view(*user), opt_view(*host)));
}

impl Reply {
    /// The wire text of the reply, without the line terminator.
    pub fn to_irc_string(&self) -> (s: String)
        ensures
            s@ == reply_text(self@),
    {
        let mut s = String::new();
        match self {
            Reply::Welcome { server_host, nick } => {
                s.append(":");
                s.append(server_host.as_str());
                s.append(" 001 ");
                s.append(nick.as_str());
                s.append(" :Welcome to the server ");
                s.append(nick.as_str());
            },
            Reply::YourHost { server_host, nick, version } => {
                s.append(":");
                s.append(server_host.as_str());
                s.append(" 002 ");
                s.append(nick.as_str());
                s.append(" :Your host is ");
                s.append(server_host.as_str());
                s.append(", running version ");
                s.append(version.as_str());
            },
            Reply::Created { server_host, nick, created_at } => {
                s.append(":");
                s.append(server_host.as_str());
                s.append(" 003 ");
                s.append(nick.as_str());
                s.append(" :This server was created ");
                let t = created_at.text();
                s.append(t.as_str());
            },
            Reply::MyInfo { server_host, nick, version, user_modes, channel_modes } => {
                s.append(":");
                s.append(server_host.as_str());
                s.append(" 004 ");
                s.append(nick.as_str());
                s.append(" ");
                s.append(server_host.as_str());
                s.append(" ");
                s.append(version.as_str());
                s.append(" ");
                s.append(user_modes.as_str());
                s.append(" ");
                s.append(channel_modes.as_str());
            },
            Reply::Support { server_host, nick, channel_len } => {
                s.append(":");
                s.append(server_host.as_str());
                s.append(" 005 ");
                s.append(nick.as_str());
                s.append(" CHANNELLEN=");
                push_decimal(&mut s, *channel_len as u64);
                s.append(" :are supported by this server");
            },
            Reply::StatsDLine { server_host, nick, connections, clients, received } => {
                s.append(":");
                s.append(server_host.as_str());
                s.append(" 250 ");
                s.append(nick.as_str());
                s.append(" :Highest connection count: ");
                push_decimal(&mut s, *connections as u64);
                s.append(" (");
                push_decimal(&mut s, *clients as u64);
                s.append(" clients) (");
                push_decimal(&mut s, *received as u64);
                s.append(" connections received)");
            },
            Reply::LuserClient { server_host, nick, visible_users, invisible_users, servers } => {
                s.append(":");
                s.append(server_host.as_str());
                s.append(" 251 ");
                s.append(nick.as_str());
                s.append(" :There are ");
                push_decimal(&mut s, *visible_users as u64);
                s.append(" users and ");
                push_decimal(&mut s, *invisible_users as u64);
                s.append(" invisible on ");
                push_decimal(&mut s, *servers as u64);
                s.append(" servers");
            },
            Reply::LuserOp { server_host, nick, operators } => {
                s.append(":");
                s.append(server_host.as_str());
                s.append(" 252 ");
                s.append(nick.as_str());
                s.append(" ");
                push_decimal(&mut s, *operators as u64);
                s.append(" :IRC Operators online");
            },
            Reply::LuserUnknown { server_host, nick, unknown } => {
                s.append(":");
                s.append(server_host.as_str());
                s.append(" 253 ");
                s.append(nick.as_str());
                s.append(" ");
                push_decimal(&mut s, *unknown as u64);
                s.append(" :unknown connection(s)");
            },
            Reply::LuserChannels { server_host, nick, channels } => {
                s.append(":");
                s.append(server_host.as_str());
                s.append(" 254 ");
                s.append(nick.as_str());
                s.append(" ");
                push_decimal(&mut s, *channels as u64);
                s.append(" :channels formed");
            },
            Reply::LuserMe { server_host, nick, clients, servers } => {
                s.append(":");
                s.append(server_host.as_str());
                s.append(" 255 ");
                s.append(nick.as_str());
                s.append(" :I have ");
                push_decimal(&mut s, *clients as u64);
                s.append(" clients and ");
                push_decimal(&mut s, *servers as u64);
                s.append(" servers");
            },
            Reply::LocalUsers { server_host, nick, current, max } => {
                s.append(":");
                s.append(server_host.as_str());
                s.append(" 265 ");
                s.append(nick.as_str());
                s.append(" ");
                push_decimal(&mut s, *current as u64);
                s.append(" ");
                push_decimal(&mut s, *max as u64);
                s.append(" :Current local users ");
                push_decimal(&mut s, *current as u64);
                s.append(", max ");
                push_decimal(&mut s, *max as u64);
            },
            Reply::GlobalUsers { server_host, nick, current, max } => {
                s.append(":");
                s.append(server_host.as_str());
                s.append(" 266 ");
                s.append(nick.as_str());
                s.append(" ");
                push_decimal(&mut s, *current as u64);
                s.append(" ");
                push_decimal(&mut s, *max as u64);
                s.append(" :Current global users ");
                push_decimal(&mut s, *current as u64);
                s.append(", max ");
                push_decimal(&mut s, *max as u64);
            },
            Reply::EndOfWho { server_host, nick, mask } => {
                s.append(":");
                s.append(server_host.as_str());
                s.append(" 315 ");
                s.append(nick.as_str());
                s.append(" ");
                s.append(mask.as_str());
                s.append(" :End of /WHO list.");
            },
            Reply::ListEnd { server_host } => {
                s.append(":");
                s.append(server_host.as_str());
                s.append(" 323 :End of /LIST");
            },
            Reply::ChannelModeIs { server_host, nick, channel, mode_string, mode_arguments } => {
                s.append(":");
                s.append(server_host.as_str());
                s.append(" 324 ");
                s.append(nick.as_str());
                s.append(" ");
                s.append(channel.as_str());
                s.append(" ");
                s.append(mode_string.as_str());
                s.append(" ");
                s.append(mode_arguments.as_str());
            },
            Reply::CreationTime { server_host, nick, channel, created_at } => {
                s.append(":");
                s.append(server_host.as_str());
                s.append(" 329 ");
                s.append(nick.as_str());
                s.append(" ");
                s.append(channel.as_str());
                s.append(" ");
                let t = created_at.text();
                s.append(t.as_str());
            },
            Reply::Topic { server_host, nick, channel, topic } => {
                s.append(":");
                s.append(server_host.as_str());
                s.append(" 332 ");
                s.append(nick.as_str());
                s.append(" ");
                s.append(channel.as_str());
                s.append(" :");
                s.append(topic.as_str());
            },
            Reply::TopicWhoTime { server_host, channel, nick, set_at } => {
                s.append(":");
                s.append(server_host.as_str());
                s.append(" 333 ");
                s.append(nick.as_str());
                s.append(" ");
                s.append(channel.as_str());
                s.append(" ");
                let t = set_at.text();
                s.append(t.as_str());
            },
            Reply::Who { server_host, nick, channel, other_user, other_host, other_server, other_nick, other_realname } => {
                s.append(":");
                s.append(server_host.as_str());
                s.append(" 352 ");
                s.append(nick.as_str());
                s.append(" ");
                s.append(channel.as_str());
                s.append(" ");
                s.append(other_user.as_str());
                s.append(" ");
                s.append(other_host.as_str());
                s.append(" ");
                s.append(other_server.as_str());
                s.append(" ");
                s.append(other_nick.as_str());
                s.append(" H@ :0 ");
                s.append(other_realname.as_str());
            },
            Reply::Nam { server_host, nick, channel, channel_users } => {
                s.append(":");
                s.append(server_host.as_str());
                s.append(" 353 ");
                s.append(nick.as_str());
                s.append(" = ");
                s.append(channel.as_str());
                s.append(" :");
                push_spaced_names(&mut s, channel_users);
            },
            Reply::EndOfNames { server_host, nick, channel } => {
                s.append(":");
                s.append(server_host.as_str());
                s.append(" 366 ");
                s.append(nick.as_str());
                s.append(" ");
                s.append(channel.as_str());
                s.append(" :End of /NAMES list.");
            },
            Reply::Motd { server_host, nick, line } => {
                s.append(":");
                s.append(server_host.as_str());
                s.append(" 372 ");
                s.append(nick.as_str());
                s.append(" :- ");
                s.append(line.as_str());
            },
            Reply::MotdStart { server_host, nick } => {
                s.append(":");
                s.append(server_host.as_str());
                s.append(" 375 ");
                s.append(nick.as_str());
                s.append(" :- ");
                s.append(server_host.as_str());
                s.append(" Message of the Day -");
            },
            Reply::EndOfMotd { server_host, nick } => {
                s.append(":");
                s.append(server_host.as_str());
                s.append(" 376 ");
                s.append(nick.as_str());
                s.append(" :End of /MOTD command.");
            },
            Reply::Ping { server_host } => {
                s.append(":");
                s.append(server_host.as_str());
                s.append(" PING");
            },
            Reply::Pong { server_host, token } => {
                s.append(":");
                s.append(server_host.as_str());
                s.append(" PONG ");
                s.append(server_host.as_str());
                s.append(" :");
                s.append(token.as_str());
            },
            Reply::Join { client, channel } => {
                s.append(":");
                s.append(client.as_str());
                s.append(" JOIN :");
                s.append(channel.as_str());
            },
            Reply::Part { client, channel } => {
                s.append(":");
                s.append(client.as_str());
                s.append(" PART ");
                s.append(channel.as_str());
            },
            Reply::PrivMsg { client_host, nick, user, channel, message } => {
                push_source_prefix(&mut s, nick, user, client_host);
                s.append(" PRIVMSG ");
                s.append(channel.as_str());
                s.append(" :");
                s.append(message.as_str());
            },
            Reply::Quit { connection_id, client_host, nick, user, message } => {
                push_source_prefix(&mut s, nick, user, client_host);
                s.append(" QUIT :");
                s.append(message.as_str());
            },
            Reply::ErrNeedMoreParams { server_host, nick, command } => {
                s.append(":");
                s.append(server_host.as_str());
                s.append(" 461 ");
                s.append(nick.as_str());
                s.append(" ");
                s.append(command.as_str());
                s.append(" :Not enough parameters");
            },
            Reply::ErrNoNickGiven { server_host } => {
                s.append(":");
                s.append(server_host.as_str());
                s.append(" 431 :No nickname given");
            },
            Reply::ErrNoSuchChannel { server_host, channel } => {
                s.append(":");
                s.append(server_host.as_str());
                s.append(" 403 ");
                s.append(channel.as_str());
                s.append(" :No such channel");
            },
            Reply::ErrNotOnChannel { server_host, channel } => {
                s.append(":");
                s.append(server_host.as_str());
                s.append(" 442 ");
                s.append(channel.as_str());
                s.append(" :You're not on that channel");
            },
        }
        s
    }
}

} // verus!
