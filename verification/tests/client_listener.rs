use rust_irc::client_listener::{split_messages, CommandAction, PongTracker, TickAction};
use rust_irc::client_sender::{on_reply, SendAction};
use rust_irc::error::Error;
use rust_irc::message_parsing::ClientToServerCommand;
use rust_irc::replies::Reply;

/// Reads the lines a buffer holds and, when they frame correctly, takes
/// the bytes off the buffer, as a reader over a socket does.
fn get_messages(buffer: &mut Vec<u8>, available: usize) -> Result<Vec<String>, Error> {
    let result = split_messages(&buffer[..available]);
    if result.is_ok() {
        buffer.drain(..available);
    }
    result
}

#[test]
fn get_messages_reads_from_buffer() {
    let mut fake_buffer = b"Hello world\r\n".to_vec();
    let result = get_messages(&mut fake_buffer, 13).unwrap();
    assert_eq!(1, result.len());
    assert_eq!("Hello world", result.first().unwrap());
    assert_eq!(0, fake_buffer.len());
}

#[test]
fn get_messages_multiplemessages_reads_from_buffer() {
    let mut fake_buffer = b"Hello world\r\nFoobar\r\n".to_vec();
    let result = get_messages(&mut fake_buffer, 21).unwrap();
    assert_eq!(2, result.len());
    assert_eq!("Hello world", result.first().unwrap());
    assert_eq!("Foobar", result[1]);
    assert_eq!(0, fake_buffer.len());
}

#[test]
fn get_messages_multiplemessages_noterminator_errors() {
    let mut fake_buffer = b"Hello world\r\nFoobar".to_vec();
    let result = get_messages(&mut fake_buffer, 19).expect_err("Testing expect an error to be returned here");
    assert_eq!("Error reading message(s), last message is missing separator", result.message());
}

#[test]
fn get_messages_nolineterminator_errors() {
    let mut fake_buffer = b"Hello world".to_vec();
    let result = get_messages(&mut fake_buffer, 11).expect_err("Testing expect an error to be returned here");
    assert_eq!("Error reading message(s), no message separator provided", result.message());
}

#[test]
fn get_messages_emptybuffer_errors() {
    let mut fake_buffer = b"".to_vec();
    get_messages(&mut fake_buffer, 0).expect_err("Testing expect an error to be returned here");
}

#[test]
fn split_messages_errors_name_the_problem() {
    assert_eq!(Err(Error::MessageReadingErrorStreamClosed), split_messages(b""));
    assert_eq!(Err(Error::MessageReadingErrorNotUtf8), split_messages(b"\xff\xfe\r\n"));
    assert_eq!(Err(Error::MessageReadingErrorNoMessageSeparatorProvided), split_messages(b"abc\n"));
}

#[test]
fn split_messages_keeps_lone_carriage_returns_and_empty_lines() {
    let lines = split_messages(b"a\rb\r\r\n\r\nc\n\r\n").unwrap();
    assert_eq!(vec!["a\rb\r".to_string(), "".to_string(), "c\n".to_string()], lines);
    let unicode = split_messages("h\u{e9}llo\r\n".as_bytes()).unwrap();
    assert_eq!(vec!["h\u{e9}llo".to_string()], unicode);
}

#[test]
fn tracker_pings_then_gives_up() {
    let mut t = PongTracker::new();
    assert_eq!(TickAction::Read, t.on_tick(10, 10));
    assert!(!t.waiting_for_pong);
    assert_eq!(TickAction::SendPingThenRead, t.on_tick(11, 10));
    assert!(t.waiting_for_pong);
    assert_eq!(TickAction::SendPingThenRead, t.on_tick(15, 10));
    assert_eq!(TickAction::Stop, t.on_tick(16, 10));
    assert_eq!(CommandAction::PongReceived, t.on_command(&ClientToServerCommand::Pong));
    assert!(!t.waiting_for_pong);
    assert_eq!(TickAction::SendPingThenRead, t.on_tick(16, 10));
}

#[test]
fn tracker_sorts_commands() {
    let mut t = PongTracker::new();
    assert_eq!(CommandAction::Ignore, t.on_command(&ClientToServerCommand::Unhandled));
    assert_eq!(CommandAction::ForwardThenStop, t.on_command(&ClientToServerCommand::Quit));
    assert_eq!(CommandAction::Forward, t.on_command(&ClientToServerCommand::Nick { nick: "n".to_string() }));
}

#[test]
fn sender_stops_on_own_quit_and_writes_lines() {
    let own = Reply::Quit { connection_id: 9, client_host: None, nick: None, user: None, message: "x".to_string() };
    assert!(matches!(on_reply(9, &own), SendAction::Stop));
    match on_reply(8, &own) {
        SendAction::Write(line) => assert_eq!(" QUIT :x\r\n", line),
        SendAction::Stop => panic!("a quit of another connection is written"),
    }
    match on_reply(9, &Reply::Ping { server_host: "h".to_string() }) {
        SendAction::Write(line) => assert_eq!(":h PING\r\n", line),
        SendAction::Stop => panic!("only a quit stops the writer"),
    }
}

#[test]
fn written_reply_lines_read_back() {
    let replies = vec![
        Reply::Ping { server_host: "srv".to_string() },
        Reply::Pong { server_host: "srv".to_string(), token: "t\u{e9}".to_string() },
    ];
    let mut wire = Vec::new();
    for r in &replies {
        match on_reply(1, r) {
            SendAction::Write(line) => wire.extend_from_slice(line.as_bytes()),
            SendAction::Stop => panic!("not a quit"),
        }
    }
    let lines = split_messages(&wire).unwrap();
    let expected: Vec<String> = replies.iter().map(|r| r.to_irc_string()).collect();
    assert_eq!(expected, lines);
}

#[test]
fn tracker_never_gives_up_when_the_grace_period_ends_past_u64() {
    let mut t = PongTracker::new();
    t.waiting_for_pong = true;
    assert_eq!(TickAction::SendPingThenRead, t.on_tick(u64::MAX, u64::MAX - 2));
    assert!(t.waiting_for_pong);
    assert_eq!(TickAction::Read, t.on_tick(u64::MAX - 2, u64::MAX - 2));
    assert_eq!(TickAction::SendPingThenRead, t.on_tick(u64::MAX, u64::MAX - 5));
    assert_eq!(TickAction::Stop, t.on_tick(u64::MAX, u64::MAX - 6));
}
