use chrono::DateTime;
use rust_irc::replies::Reply;
use rust_irc::time::Timestamp;

#[test]
fn welcome_prints_correctly() {
    let reply = Reply::Welcome { server_host: "localhost".to_string(), nick: "JIM".to_string() };
    let actual = reply.to_irc_string();
    let expected = ":localhost 001 JIM :Welcome to the server JIM";
    assert_eq!(expected, actual);
}

#[test]
fn yourhost_prints_correctly() {
    let reply = Reply::YourHost {
        server_host: "localhost".to_string(),
        nick: "JIM".to_string(),
        version: "0.0.1".to_string(),
    };
    let actual = reply.to_irc_string();
    let expected = ":localhost 002 JIM :Your host is localhost, running version 0.0.1";
    assert_eq!(expected, actual);
}

#[test]
fn created_prints_correctly() {
    let now = Timestamp::now().unwrap();
    let reply = Reply::Created { server_host: "localhost".to_string(), nick: "JIM".to_string(), created_at: now };
    let actual = reply.to_irc_string();
    let shown = DateTime::from_timestamp(now.secs(), now.nanos()).unwrap();
    let expected = format!(":localhost 003 JIM :This server was created {}", shown);
    assert_eq!(expected, actual);
}

#[test]
fn myinfo_prints_correctly() {
    let reply = Reply::MyInfo {
        server_host: "localhost".to_string(),
        nick: "JIM".to_string(),
        version: "0.0.1".to_string(),
        user_modes: "r".to_string(),
        channel_modes: "i".to_string(),
    };
    let actual = reply.to_irc_string();
    let expected = format!(":localhost 004 JIM localhost 0.0.1 r i");
    assert_eq!(expected, actual);
}

#[test]
fn support_prints_correctly() {
    let reply = Reply::Support { server_host: "localhost".to_string(), nick: "JIM".to_string(), channel_len: 100 };
    let actual = reply.to_irc_string();
    let expected = format!(":localhost 005 JIM CHANNELLEN=100 :are supported by this server");
    assert_eq!(expected, actual);
}

#[test]
fn luserclient_prints_correctly() {
    let reply = Reply::LuserClient {
        server_host: "localhost".to_string(),
        nick: "JIM".to_string(),
        visible_users: 100,
        invisible_users: 20,
        servers: 1,
    };
    let actual = reply.to_irc_string();
    let expected = format!(":localhost 251 JIM :There are 100 users and 20 invisible on 1 servers");
    assert_eq!(expected, actual);
}

#[test]
fn luserop_prints_correctly() {
    let reply = Reply::LuserOp { server_host: "localhost".to_string(), nick: "JIM".to_string(), operators: 1337 };
    let actual = reply.to_irc_string();
    let expected = format!(":localhost 252 JIM 1337 :IRC Operators online");
    assert_eq!(expected, actual);
}

#[test]
fn luserunknown_prints_correctly() {
    let reply = Reply::LuserUnknown { server_host: "localhost".to_string(), nick: "JIM".to_string(), unknown: 7 };
    let actual = reply.to_irc_string();
    let expected = format!(":localhost 253 JIM 7 :unknown connection(s)");
    assert_eq!(expected, actual);
}

#[test]
fn luserchannels_prints_correctly() {
    let reply = Reply::LuserChannels { server_host: "localhost".to_string(), nick: "JIM".to_string(), channels: 9999 };
    let actual = reply.to_irc_string();
    let expected = format!(":localhost 254 JIM 9999 :channels formed");
    assert_eq!(expected, actual);
}

#[test]
fn luserme_prints_correctly() {
    let reply = Reply::LuserMe { server_host: "localhost".to_string(), nick: "JIM".to_string(), clients: 900, servers: 1 };
    let actual = reply.to_irc_string();
    let expected = format!(":localhost 255 JIM :I have 900 clients and 1 servers");
    assert_eq!(expected, actual);
}

#[test]
fn localusers_prints_correctly() {
    let reply = Reply::LocalUsers { server_host: "localhost".to_string(), nick: "JIM".to_string(), current: 845, max: 1000 };
    let actual = reply.to_irc_string();
    let expected = format!(":localhost 265 JIM 845 1000 :Current local users 845, max 1000");
    assert_eq!(expected, actual);
}

#[test]
fn globalusers_prints_correctly() {
    let reply = Reply::GlobalUsers {
        server_host: "localhost".to_string(),
        nick: "JIM".to_string(),
        current: 9823,
        max: 23455,
    };
    let actual = reply.to_irc_string();
    let expected = format!(":localhost 266 JIM 9823 23455 :Current global users 9823, max 23455");
    assert_eq!(expected, actual);
}

#[test]
fn statsdline_prints_correctly() {
    let reply = Reply::StatsDLine {
        server_host: "localhost".to_string(),
        nick: "JIM".to_string(),
        connections: 9998,
        clients: 9000,
        received: 99999,
    };
    let actual = reply.to_irc_string();
    let expected =
        format!(":localhost 250 JIM :Highest connection count: 9998 (9000 clients) (99999 connections received)");
    assert_eq!(expected, actual);
}

#[test]
fn motdstart_prints_correctly() {
    let reply = Reply::MotdStart { server_host: "localhost".to_string(), nick: "JIM".to_string() };
    let actual = reply.to_irc_string();
    let expected = format!(":localhost 375 JIM :- localhost Message of the Day -");
    assert_eq!(expected, actual);
}

#[test]
fn endofmotd_prints_correctly() {
    let reply = Reply::EndOfMotd { server_host: "localhost".to_string(), nick: "JIM".to_string() };
    let actual = reply.to_irc_string();
    let expected = format!(":localhost 376 JIM :End of /MOTD command.");
    assert_eq!(expected, actual);
}

#[test]
fn motd_prints_correctly() {
    let reply = Reply::Motd { server_host: "localhost".to_string(), nick: "JIM".to_string(), line: "Foobar".to_string() };
    let actual = reply.to_irc_string();
    let expected = format!(":localhost 372 JIM :- Foobar");
    assert_eq!(expected, actual);
}

#[test]
fn pong_prints_correctly() {
    let reply = Reply::Pong { server_host: "localhost".to_string(), token: "LAG1238948394".to_string() };
    let actual = reply.to_irc_string();
    let expected = format!(":localhost PONG localhost :LAG1238948394");
    assert_eq!(expected, actual);
}

#[test]
fn listend_prints_correctly() {
    let reply = Reply::ListEnd { server_host: "localhost".to_string() };
    let actual = reply.to_irc_string();
    let expected = format!(":localhost 323 :End of /LIST");
    assert_eq!(expected, actual);
}

#[test]
fn endofnames_prints_correctly() {
    let reply = Reply::EndOfNames {
        server_host: "localhost".to_string(),
        nick: "JIM".to_string(),
        channel: "#foobar".to_string(),
    };
    let actual = reply.to_irc_string();
    let expected = format!(":localhost 366 JIM #foobar :End of /NAMES list.");
    assert_eq!(expected, actual);
}

#[test]
fn endofwho_prints_correctly() {
    let reply = Reply::EndOfWho {
        server_host: "localhost".to_string(),
        nick: "JIM".to_string(),
        mask: "#foobar".to_string(),
    };
    let actual = reply.to_irc_string();
    let expected = format!(":localhost 315 JIM #foobar :End of /WHO list.");
    assert_eq!(expected, actual);
}

#[test]
fn topic_prints_correctly() {
    let reply = Reply::Topic {
        server_host: "localhost".to_string(),
        nick: "JIM".to_string(),
        channel: "#foobar".to_string(),
        topic: "hELLO WORLD".to_string(),
    };
    let actual = reply.to_irc_string();
    let expected = format!(":localhost 332 JIM #foobar :hELLO WORLD");
    assert_eq!(expected, actual);
}

#[test]
fn fixed_time_replies_print_chrono_text() {
    let t = Timestamp::from_unix(1431648000, 0).unwrap();
    let created = Reply::Created { server_host: "h".to_string(), nick: "n".to_string(), created_at: t };
    assert_eq!(":h 003 n :This server was created 2015-05-15 00:00:00 UTC", created.to_irc_string());
    let creation = Reply::CreationTime {
        server_host: "h".to_string(),
        nick: "n".to_string(),
        channel: "#c".to_string(),
        created_at: t,
    };
    assert_eq!(":h 329 n #c 2015-05-15 00:00:00 UTC", creation.to_irc_string());
    let who_time = Reply::TopicWhoTime {
        server_host: "h".to_string(),
        channel: "#c".to_string(),
        nick: "n".to_string(),
        set_at: t,
    };
    assert_eq!(":h 333 n #c 2015-05-15 00:00:00 UTC", who_time.to_irc_string());
}

#[test]
fn timestamps_out_of_chrono_range_are_refused() {
    assert!(Timestamp::from_unix(i64::MAX, 0).is_none());
    assert!(Timestamp::from_unix(0, 2_000_000_000).is_none());
    let t = Timestamp::from_unix(59, 1_500_000_000).unwrap();
    assert_eq!(59, t.secs());
    assert_eq!(1_500_000_000, t.nanos());
}

#[test]
fn names_are_joined_by_single_spaces() {
    let reply = Reply::Nam {
        server_host: "h".to_string(),
        nick: "n".to_string(),
        channel: "#c".to_string(),
        channel_users: vec!["a".to_string(), "b".to_string(), "c".to_string()],
    };
    assert_eq!(":h 353 n = #c :a b c", reply.to_irc_string());
    let empty = Reply::Nam {
        server_host: "h".to_string(),
        nick: "n".to_string(),
        channel: "#c".to_string(),
        channel_users: vec![],
    };
    assert_eq!(":h 353 n = #c :", empty.to_irc_string());
}

#[test]
fn relayed_messages_carry_the_known_source() {
    let full = Reply::PrivMsg {
        client_host: Some("127.0.0.1:5000".to_string()),
        nick: Some("joe".to_string()),
        user: Some("jo".to_string()),
        channel: "#c".to_string(),
        message: "hi there".to_string(),
    };
    assert_eq!(":joe!jo@127.0.0.1:5000 PRIVMSG #c :hi there", full.to_irc_string());
    let no_nick = Reply::PrivMsg {
        client_host: Some("h".to_string()),
        nick: None,
        user: Some("u".to_string()),
        channel: "#c".to_string(),
        message: "m".to_string(),
    };
    assert_eq!(" PRIVMSG #c :m", no_nick.to_irc_string());
    let quit = Reply::Quit {
        connection_id: 5,
        client_host: None,
        nick: Some("joe".to_string()),
        user: None,
        message: "bye".to_string(),
    };
    assert_eq!(":joe QUIT :bye", quit.to_irc_string());
}

#[test]
fn other_replies_print_correctly() {
    let check = |r: Reply, s: &str| assert_eq!(s, r.to_irc_string());
    check(Reply::Ping { server_host: "h".to_string() }, ":h PING");
    check(Reply::Join { client: "c!~c@localhost".to_string(), channel: "#x".to_string() }, ":c!~c@localhost JOIN :#x");
    check(Reply::Part { client: "c".to_string(), channel: "#x".to_string() }, ":c PART #x");
    check(
        Reply::ChannelModeIs {
            server_host: "h".to_string(),
            nick: "n".to_string(),
            channel: "#x".to_string(),
            mode_string: "+mtn1".to_string(),
            mode_arguments: "100".to_string(),
        },
        ":h 324 n #x +mtn1 100",
    );
    check(
        Reply::Who {
            server_host: "h".to_string(),
            nick: "n".to_string(),
            channel: "*".to_string(),
            other_user: "u".to_string(),
            other_host: "1.2.3.4:5".to_string(),
            other_server: "h".to_string(),
            other_nick: "o".to_string(),
            other_realname: "Real Name".to_string(),
        },
        ":h 352 n * u 1.2.3.4:5 h o H@ :0 Real Name",
    );
    check(
        Reply::ErrNeedMoreParams { server_host: "h".to_string(), nick: "n".to_string(), command: "PING".to_string() },
        ":h 461 n PING :Not enough parameters",
    );
    check(Reply::ErrNoNickGiven { server_host: "h".to_string() }, ":h 431 :No nickname given");
    check(
        Reply::ErrNoSuchChannel { server_host: "h".to_string(), channel: "#x".to_string() },
        ":h 403 #x :No such channel",
    );
    check(
        Reply::ErrNotOnChannel { server_host: "h".to_string(), channel: "#x".to_string() },
        ":h 442 #x :You're not on that channel",
    );
    check(
        Reply::LuserOp { server_host: "h".to_string(), nick: "n".to_string(), operators: u32::MAX },
        ":h 252 n 4294967295 :IRC Operators online",
    );
}

#[test]
fn numeric_replies_start_with_host_and_code() {
    let replies = vec![
        (Reply::ListEnd { server_host: "h".to_string() }, "323"),
        (Reply::ErrNoNickGiven { server_host: "h".to_string() }, "431"),
        (Reply::ErrNeedMoreParams { server_host: "h".to_string(), nick: "n".to_string(), command: "X".to_string() }, "461"),
        (Reply::EndOfMotd { server_host: "h".to_string(), nick: "n".to_string() }, "376"),
    ];
    for (reply, code) in replies {
        assert!(reply.to_irc_string().starts_with(&format!(":h {} ", code)));
    }
}
