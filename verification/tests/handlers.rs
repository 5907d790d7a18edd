use std::collections::HashMap;

use rust_irc::context::{Channels, ConnectionContext};
use rust_irc::handlers::join::{handle_join, handle_join_at};
use rust_irc::handlers::mode::{handle_mode, handle_mode_at};
use rust_irc::handlers::nick::handle_nick;
use rust_irc::handlers::part::handle_part;
use rust_irc::handlers::ping::handle_ping;
use rust_irc::handlers::privmsg::handle_privmsg;
use rust_irc::handlers::quit::handle_quit;
use rust_irc::handlers::user::handle_user;
use rust_irc::handlers::who::handle_who;
use rust_irc::replies::Reply;
use rust_irc::time::Timestamp;

fn conn(id: u128, nick: &str) -> ConnectionContext {
    ConnectionContext {
        connection_id: id,
        client: Some(format!("{}!~{}@localhost", nick, nick)),
        nick: Some(nick.to_string()),
        user: Some(format!("u{}", nick)),
        real_name: Some(format!("Real {}", nick)),
        client_host: Some(format!("10.0.0.{}:6000", id)),
    }
}

fn texts(replies: &Vec<Reply>) -> Vec<String> {
    replies.iter().map(|r| r.to_irc_string()).collect()
}

fn members(channels: &Channels, name: &str) -> Option<Vec<u128>> {
    channels.get(name).map(|c| c.members.clone())
}

fn t0() -> Timestamp {
    Timestamp::from_unix(1431648000, 0).unwrap()
}

#[test]
fn ping_answers_pong_with_token() {
    let c = conn(1, "a");
    let out = handle_ping("srv", "a", &Some("tok".to_string()), &c).unwrap();
    assert_eq!(1, out.len());
    assert_eq!(vec![":srv PONG srv :tok".to_string()], texts(&out[&1]));
    let out = handle_ping("srv", "a", &None, &c).unwrap();
    assert_eq!(vec![":srv 461 a PING :Not enough parameters".to_string()], texts(&out[&1]));
}

#[test]
fn mode_reports_fixed_modes() {
    let c = conn(2, "b");
    let out = handle_mode_at("srv", "b", &Some("#x".to_string()), &c, t0()).unwrap();
    assert_eq!(
        vec![":srv 324 b #x +mtn1 100".to_string(), ":srv 329 b #x 2015-05-15 00:00:00 UTC".to_string()],
        texts(&out[&2])
    );
    let out = handle_mode("srv", "b", &None, &c).unwrap();
    assert_eq!(vec![":srv 461 b MODE :Not enough parameters".to_string()], texts(&out[&2]));
    let out = handle_mode("srv", "b", &Some("#x".to_string()), &c).unwrap();
    assert_eq!(2, out[&2].len());
}

#[test]
fn nick_records_identity_and_welcomes() {
    let mut c = ConnectionContext::default();
    c.connection_id = 3;
    let out = handle_nick("srv", &Some("joe".to_string()), "0.0.1", &t0(), &mut c);
    assert_eq!(Some("joe".to_string()), c.nick);
    assert_eq!(Some("joe!~joe@localhost".to_string()), c.client);
    let lines = texts(&out[&3]);
    assert_eq!(16, lines.len());
    assert_eq!(":srv 001 joe :Welcome to the server joe", lines[0]);
    assert_eq!(":srv 003 joe :This server was created 2015-05-15 00:00:00 UTC", lines[2]);
    assert_eq!(":srv 266 joe 9832 23455 :Current global users 9832, max 23455", lines[11]);
    assert_eq!(":srv 376 joe :End of /MOTD command.", lines[15]);

    let out = handle_nick("srv", &None, "0.0.1", &t0(), &mut c);
    assert_eq!(vec![":srv 431 :No nickname given".to_string()], texts(&out[&3]));
    assert_eq!(Some("joe".to_string()), c.nick);
}

#[test]
fn user_records_names_or_complains() {
    let mut c = ConnectionContext::default();
    c.connection_id = 4;
    let out = handle_user("srv", &Some("guest".to_string()), &None, &mut c).unwrap();
    assert_eq!(vec![":srv 461  USER :Not enough parameters".to_string()], texts(&out[&4]));
    assert_eq!(None, c.user);
    assert!(handle_user("srv", &Some("guest".to_string()), &Some("::Real".to_string()), &mut c).is_none());
    assert_eq!(Some("guest".to_string()), c.user);
    assert_eq!(Some("Real".to_string()), c.real_name);
}

#[test]
fn join_creates_channel_and_tells_others() {
    let a = conn(1, "a");
    let b = conn(2, "b");
    let mut connections = HashMap::new();
    connections.insert(1, conn(1, "a"));
    connections.insert(2, conn(2, "b"));
    let mut channels = Channels::new();

    let out = handle_join_at("srv", "a", "a!~a@localhost", &a, &mut channels, &connections, &["#x".to_string()], t0())
        .unwrap();
    assert_eq!(Some(vec![1]), members(&channels, "#x"));
    assert_eq!(
        vec![
            ":a!~a@localhost JOIN :#x".to_string(),
            ":srv 332 a #x :foobar topic".to_string(),
            ":srv 333 a #x 2015-05-15 00:00:00 UTC".to_string(),
            ":srv 353 a = #x :a".to_string(),
            ":srv 366 a #x :End of /NAMES list.".to_string(),
        ],
        texts(&out[&1])
    );
    assert_eq!(1, out.len());

    let out = handle_join("srv", "b", "b!~b@localhost", &b, &mut channels, &connections, &["#x".to_string()]).unwrap();
    assert_eq!(Some(vec![1, 2]), members(&channels, "#x"));
    assert_eq!(":srv 353 b = #x :a b", texts(&out[&2])[3]);
    assert_eq!(vec![":b!~b@localhost JOIN :#x".to_string()], texts(&out[&1]));

    // joining again changes nothing in the member list
    handle_join("srv", "b", "b!~b@localhost", &b, &mut channels, &connections, &["#x".to_string()]).unwrap();
    assert_eq!(Some(vec![1, 2]), members(&channels, "#x"));
}

#[test]
fn join_of_several_channels_keeps_last_replies() {
    let a = conn(1, "a");
    let mut connections = HashMap::new();
    connections.insert(1, conn(1, "a"));
    let mut channels = Channels::new();
    let out = handle_join_at(
        "srv",
        "a",
        "a!~a@localhost",
        &a,
        &mut channels,
        &connections,
        &["#x".to_string(), "#y".to_string()],
        t0(),
    )
    .unwrap();
    assert_eq!(Some(vec![1]), members(&channels, "#x"));
    assert_eq!(Some(vec![1]), members(&channels, "#y"));
    assert_eq!(":a!~a@localhost JOIN :#y", texts(&out[&1])[0]);
}

#[test]
fn privmsg_reaches_other_members_only() {
    let a = conn(1, "a");
    let mut connections = HashMap::new();
    connections.insert(1, conn(1, "a"));
    connections.insert(2, conn(2, "b"));
    connections.insert(3, conn(3, "c"));
    let mut channels = Channels::new();
    channels.add_member("#x", 1);
    channels.add_member("#x", 2);
    channels.add_member("#x", 3);
    channels.add_member("#x", 9);

    let out = handle_privmsg("srv", "a", &Some("#x".to_string()), &Some("hi".to_string()), &a, &channels, &connections)
        .unwrap();
    assert_eq!(2, out.len());
    assert!(!out.contains_key(&1));
    assert_eq!(vec![":a!ua@10.0.0.1:6000 PRIVMSG #x :hi".to_string()], texts(&out[&2]));
    assert_eq!(vec![":a!ua@10.0.0.1:6000 PRIVMSG #x :hi".to_string()], texts(&out[&3]));

    assert!(handle_privmsg("srv", "a", &Some("#nope".to_string()), &Some("hi".to_string()), &a, &channels, &connections)
        .is_none());
    let out = handle_privmsg("srv", "a", &Some("#x".to_string()), &None, &a, &channels, &connections).unwrap();
    assert_eq!(vec![":srv 461 a PRIVMSG :Not enough parameters".to_string()], texts(&out[&1]));
}

#[test]
fn part_leaves_and_tells_others() {
    let a = conn(1, "a");
    let mut channels = Channels::new();
    channels.add_member("#x", 2);
    channels.add_member("#x", 1);
    channels.add_member("#y", 3);

    let out = handle_part(
        "srv",
        "a",
        "a!~a@localhost",
        &a,
        &mut channels,
        &["#x".to_string(), "#y".to_string(), "#nope".to_string()],
    )
    .unwrap();
    assert_eq!(Some(vec![2]), members(&channels, "#x"));
    assert_eq!(Some(vec![3]), members(&channels, "#y"));
    assert_eq!(1, out.len());
    assert_eq!(vec![":a!~a@localhost PART #x".to_string()], texts(&out[&2]));

    let out = handle_part("srv", "a", "a!~a@localhost", &a, &mut channels, &[]).unwrap();
    assert_eq!(vec![":srv 461 a PART :Not enough parameters".to_string()], texts(&out[&1]));
}

#[test]
fn quit_leaves_every_channel_and_tells_everyone() {
    let mut connections = HashMap::new();
    connections.insert(1, conn(1, "a"));
    connections.insert(2, conn(2, "b"));
    connections.insert(3, conn(3, "c"));
    let mut channels = Channels::new();
    channels.add_member("#x", 1);
    channels.add_member("#x", 2);
    channels.add_member("#y", 3);
    channels.add_member("#y", 1);
    channels.add_member("#z", 2);
    channels.add_member("#z", 8);

    let out = handle_quit(&Some("bye".to_string()), &mut channels, &connections, 1).unwrap();
    assert_eq!(Some(vec![2]), members(&channels, "#x"));
    assert_eq!(Some(vec![3]), members(&channels, "#y"));
    assert_eq!(Some(vec![2, 8]), members(&channels, "#z"));
    assert_eq!(3, out.len());
    for id in [1u128, 2, 3] {
        assert_eq!(vec![":a!ua@10.0.0.1:6000 QUIT :bye".to_string()], texts(&out[&id]));
    }
    assert!(handle_quit(&None, &mut channels, &connections, 77).is_none());
    let out = handle_quit(&None, &mut channels, &connections, 3).unwrap();
    assert_eq!(vec![":c!uc@10.0.0.3:6000 QUIT :DEFAULT QUIT MESSAGE TODO".to_string()], texts(&out[&3]));
}

#[test]
fn who_lists_channel_members_or_matching_hosts() {
    let mut connections = HashMap::new();
    connections.insert(1, conn(1, "alice"));
    connections.insert(2, conn(2, "bob"));
    let mut anon = ConnectionContext::default();
    anon.connection_id = 3;
    connections.insert(3, anon);
    let mut channels = Channels::new();
    channels.add_member("#x", 2);
    channels.add_member("#x", 1);

    let replies = texts(&handle_who(&Some("#x".to_string()), "srv", "me", &channels, &connections));
    assert_eq!(
        vec![
            ":srv 352 me #x ubob 10.0.0.2:6000 srv bob H@ :0 Real bob".to_string(),
            ":srv 352 me #x ualice 10.0.0.1:6000 srv alice H@ :0 Real alice".to_string(),
            ":srv 315 me #x :End of /WHO list.".to_string(),
        ],
        replies
    );

    let replies = texts(&handle_who(&Some("ali*".to_string()), "srv", "me", &channels, &connections));
    assert_eq!(
        vec![
            ":srv 352 me * ualice 10.0.0.1:6000 srv alice H@ :0 Real alice".to_string(),
            ":srv 315 me ali* :End of /WHO list.".to_string(),
        ],
        replies
    );

    let replies = texts(&handle_who(&Some("!@127.0.0.1:1234".to_string()), "srv", "me", &channels, &connections));
    assert_eq!(
        vec![
            ":srv 352 me *  127.0.0.1:1234 srv  H@ :0 ".to_string(),
            ":srv 315 me !@127.0.0.1:1234 :End of /WHO list.".to_string(),
        ],
        replies
    );

    let replies = texts(&handle_who(&None, "srv", "me", &channels, &connections));
    assert_eq!(vec![":srv 461 me WHO :Not enough parameters".to_string()], replies);
}

#[test]
fn join_then_part_restores_membership() {
    let a = conn(5, "e");
    let connections = HashMap::new();
    let mut channels = Channels::new();
    channels.add_member("#x", 1);
    handle_join_at("srv", "e", "e", &a, &mut channels, &connections, &["#x".to_string()], t0()).unwrap();
    assert_eq!(Some(vec![1, 5]), members(&channels, "#x"));
    handle_part("srv", "e", "e", &a, &mut channels, &["#x".to_string()]).unwrap();
    assert_eq!(Some(vec![1]), members(&channels, "#x"));

    handle_join_at("srv", "e", "e", &a, &mut channels, &connections, &["#new".to_string()], t0()).unwrap();
    handle_part("srv", "e", "e", &a, &mut channels, &["#new".to_string()]).unwrap();
    assert_eq!(Some(vec![]), members(&channels, "#new"));
}

#[test]
fn channel_table_operations() {
    let mut channels = Channels::new();
    assert!(channels.get("#a").is_none());
    channels.add_member("#a", 1);
    channels.add_member("#a", 1);
    channels.add_member("#a", 2);
    assert_eq!(Some(vec![1, 2]), members(&channels, "#a"));
    channels.remove_member("#a", 1);
    assert_eq!(Some(vec![2]), members(&channels, "#a"));
    channels.remove_member("#missing", 1);
    assert!(channels.get("#missing").is_none());
    channels.add_member("#b", 2);
    let mut others = channels.leave_all(2);
    others.sort();
    assert!(others.is_empty());
    assert_eq!(Some(vec![]), members(&channels, "#a"));
}
