use rust_irc::error::Error;
use rust_irc::message_parsing::{ClientToServerCommand, ClientToServerMessage};
use uuid::Uuid;

fn new_id() -> u128 {
    Uuid::new_v4().as_u128()
}

#[test]
fn messageparsing_missingcommand_errors() {
    let raw_str = ":";
    ClientToServerMessage::from_str(raw_str, new_id()).expect_err("Expected error!");
    let raw_str = ":abc";
    ClientToServerMessage::from_str(raw_str, new_id()).expect_err("Expected error!");
}

#[test]
fn message_parsing_nick_command_has_prefix_success() {
    let expected_nick = format!("Joe");
    let uuid = new_id();
    let expected_message = ClientToServerMessage {
        source: Some(format!("FOO")),
        command: ClientToServerCommand::Nick { nick: expected_nick.clone() },
        connection_uuid: uuid,
    };
    let raw_str = &format!(":{} NICK {}", expected_message.source.as_ref().unwrap(), expected_nick);

    let message = ClientToServerMessage::from_str(raw_str, uuid).expect("Failed to parse valid prefix");
    let actual_source = message.source;
    let actual_command = message.command;
    assert_eq!(expected_message.source, actual_source);
    assert_eq!(expected_message.command, actual_command);
}

#[test]
fn message_parsing_nick_command_no_prefix_success() {
    let expected_nick = format!("Joe");
    let uuid = new_id();
    let expected_message = ClientToServerMessage {
        source: None,
        command: ClientToServerCommand::Nick { nick: expected_nick.clone() },
        connection_uuid: uuid,
    };
    let raw_str = &format!("NICK {}", expected_nick);
    let message = ClientToServerMessage::from_str(raw_str, uuid).expect("Failed to parse valid prefix");
    let actual_command = message.command;
    assert_eq!(expected_message.command, actual_command);
}

#[test]
fn message_parsing_handles_lowercase_commands() {
    let expected_nick = format!("Joe");
    let uuid = new_id();
    let expected_message = ClientToServerMessage {
        source: None,
        command: ClientToServerCommand::Nick { nick: expected_nick.clone() },
        connection_uuid: uuid,
    };
    let raw_str = &format!("nick {}", expected_nick);
    let message = ClientToServerMessage::from_str(raw_str, uuid).expect("Failed to parse valid prefix");
    let actual_command = message.command;
    assert_eq!(expected_message.command, actual_command);
}

#[test]
fn message_parsing_valid_join_command_success() {
    let expected_channel = "foobar".to_string();
    let uuid = new_id();
    let expected_message = ClientToServerMessage {
        source: None,
        command: ClientToServerCommand::Join { channels: vec![expected_channel.clone()] },
        connection_uuid: uuid,
    };
    let raw_str = &format!("JOIN {}", expected_channel);
    let message = ClientToServerMessage::from_str(raw_str, uuid).expect("Failed to parse valid message");
    assert_eq!(expected_message.command, message.command);
}

#[test]
fn message_parsing_join_multiple_channels_success() {
    let expected_channel_1 = "foobar".to_string();
    let expected_channel_2 = "barbaz".to_string();
    let uuid = new_id();

    let expected_channels = vec![expected_channel_1.clone(), expected_channel_2.clone()];
    let expected_message = ClientToServerMessage {
        source: None,
        command: ClientToServerCommand::Join { channels: expected_channels.clone() },
        connection_uuid: uuid,
    };

    let raw_str = &format!("JOIN {}", expected_channels.join(","));
    let message = ClientToServerMessage::from_str(raw_str, uuid).expect("Failed to parse valid message");
    assert_eq!(expected_message.command, message.command);
}

#[test]
fn message_parsing_who_with_no_mask_success() {
    let uuid = new_id();
    let expected_message = ClientToServerMessage {
        source: None,
        command: ClientToServerCommand::Who { mask: None, only_operators: false },
        connection_uuid: uuid,
    };
    let raw_str = &format!("WHO");
    let message = ClientToServerMessage::from_str(raw_str, uuid).expect("Failed to parse valid message");
    assert_eq!(expected_message.command, message.command);
}

#[test]
fn message_parsing_who_only_operators_defaults_to_false() {
    let uuid = new_id();
    let expected_message = ClientToServerMessage {
        source: None,
        command: ClientToServerCommand::Who { mask: Some("#heythere".to_string()), only_operators: false },
        connection_uuid: uuid,
    };
    let raw_str = &format!("WHO #heythere");
    let message = ClientToServerMessage::from_str(raw_str, uuid).expect("Failed to parse valid message");
    assert_eq!(expected_message.command, message.command);
}

#[test]
fn message_parsing_who_only_operators_requested_success() {
    let uuid = new_id();
    let expected_message = ClientToServerMessage {
        source: None,
        command: ClientToServerCommand::Who { mask: Some("#heythere".to_string()), only_operators: true },
        connection_uuid: uuid,
    };
    let raw_str = &format!("WHO #heythere o");
    let message = ClientToServerMessage::from_str(raw_str, uuid).expect("Failed to parse valid message");
    assert_eq!(expected_message.command, message.command);
}

#[test]
fn message_parsing_privmsg_multi_word_message_is_parsed() {
    let uuid = new_id();
    let expected_message = ClientToServerMessage {
        source: None,
        command: ClientToServerCommand::PrivMsg {
            channel: "#blah".to_string(),
            message: "HI. THERE? HELLO!".to_string(),
        },
        connection_uuid: uuid,
    };
    let raw_str = &format!("PRIVMSG #blah :HI. THERE? HELLO!");
    let message = ClientToServerMessage::from_str(raw_str, uuid).expect("Failed to parse valid message");
    assert_eq!(expected_message.command, message.command);
}

#[test]
fn message_parsing_privmsg_channel_missing_errors() {
    let uuid = new_id();
    let raw_str = &format!("PRIVMSG");
    let message = ClientToServerMessage::from_str(raw_str, uuid);
    let expected = Err(Error::MessageParsingErrorMissingParameter { param_name: "channel".to_string() });
    assert_eq!(expected, message);
}

#[test]
fn message_parsing_privmsg_channel_missing_hash_errors() {
    let uuid = new_id();
    let raw_str = &format!("PRIVMSG :foo");
    let message = ClientToServerMessage::from_str(raw_str, uuid);
    let expected = Err(Error::MessageParsingErrorInvalidChannelFormat { provided_channel: ":foo".to_string() });
    assert_eq!(expected, message);
}

fn privmsg_message_missing(raw_str: &str) {
    let uuid = new_id();
    let message = ClientToServerMessage::from_str(raw_str, uuid);
    let expected = Err(Error::MessageParsingErrorMissingParameter { param_name: "message".to_string() });
    assert_eq!(expected, message);
}

#[test]
fn message_parsing_privmsg_message_missing_errors() {
    privmsg_message_missing("PRIVMSG #hey");
}

#[test]
fn message_parsing_privmsg_message_missing_trailing_space_errors() {
    privmsg_message_missing("PRIVMSG #hey ");
}

#[test]
fn parse_keeps_connection_id_and_trims_source_colons() {
    let message = ClientToServerMessage::from_str("::irc.example  ping   tok1 extra", 42).unwrap();
    assert_eq!(Some("irc.example".to_string()), message.source);
    assert_eq!(ClientToServerCommand::Ping { token: "tok1".to_string() }, message.command);
    assert_eq!(42, message.connection_uuid);
}

#[test]
fn parse_source_only_when_line_starts_with_colon() {
    let message = ClientToServerMessage::from_str(" :x NICK a", 1).unwrap();
    assert_eq!(None, message.source);
    assert_eq!(ClientToServerCommand::Unhandled, message.command);
}

#[test]
fn parse_empty_line_has_no_command() {
    assert_eq!(Err(Error::MessageParsingErrorMissingCommand), ClientToServerMessage::from_str("   ", 1));
    assert_eq!(Err(Error::MessageParsingErrorMissingCommand), ClientToServerMessage::from_str("", 1));
}

#[test]
fn parse_missing_parameters_name_the_parameter() {
    let missing = |line: &str, name: &str| {
        assert_eq!(
            Err(Error::MessageParsingErrorMissingParameter { param_name: name.to_string() }),
            ClientToServerMessage::from_str(line, 7)
        );
    };
    missing("NICK", "nick");
    missing("PING", "token");
    missing("JOIN", "channels");
    missing("MODE", "channel");
    missing("USER", "user");
    missing("USER u", "mode");
    missing("USER u 0 *", "realname");
}

#[test]
fn parse_user_skips_the_unused_argument() {
    let message = ClientToServerMessage::from_str("USER guest 0 * :Real", 3).unwrap();
    assert_eq!(
        ClientToServerCommand::User {
            user: "guest".to_string(),
            mode: "0".to_string(),
            realname: ":Real".to_string(),
        },
        message.command
    );
}

#[test]
fn parse_join_keeps_empty_pieces() {
    let message = ClientToServerMessage::from_str("JOIN #a,,#b,", 3).unwrap();
    assert_eq!(
        ClientToServerCommand::Join {
            channels: vec!["#a".to_string(), "".to_string(), "#b".to_string(), "".to_string()],
        },
        message.command
    );
}

#[test]
fn parse_privmsg_colons_and_spacing() {
    let message = ClientToServerMessage::from_str("PRIVMSG #c ::hi   there", 3).unwrap();
    assert_eq!(
        ClientToServerCommand::PrivMsg { channel: "#c".to_string(), message: "hi there".to_string() },
        message.command
    );
    assert_eq!(
        Err(Error::MessageParsingErrorMissingParameter { param_name: "message".to_string() }),
        ClientToServerMessage::from_str("PRIVMSG #c :::", 3)
    );
}

#[test]
fn parse_pong_quit_and_unknown() {
    assert_eq!(ClientToServerCommand::Pong, ClientToServerMessage::from_str("PONG :x", 1).unwrap().command);
    assert_eq!(ClientToServerCommand::Quit, ClientToServerMessage::from_str("quit :bye", 1).unwrap().command);
    assert_eq!(ClientToServerCommand::Unhandled, ClientToServerMessage::from_str("LIST", 1).unwrap().command);
    assert_eq!(
        ClientToServerCommand::Mode { channel: "#m".to_string() },
        ClientToServerMessage::from_str("Mode #m +i", 1).unwrap().command
    );
}

#[test]
fn parse_splits_on_unicode_whitespace() {
    let message = ClientToServerMessage::from_str("NICK\u{3000}joe\tx", 1).unwrap();
    assert_eq!(ClientToServerCommand::Nick { nick: "joe".to_string() }, message.command);
}

#[test]
fn error_messages_read_as_text() {
    assert_eq!(
        "Error reading message(s), last message is missing separator",
        Error::MessageReadingErrorLastMessageMissingSeparator.message()
    );
    assert_eq!("Error parsing message, command is missing", Error::MessageParsingErrorMissingCommand.message());
    assert_eq!(
        "Error parsing message, missing parameter nick",
        Error::MessageParsingErrorMissingParameter { param_name: "nick".to_string() }.message()
    );
    assert_eq!("Unable to bind to port 6667", Error::UnableToBindToPort(6667).message());
    assert_eq!("Unable to bind to port 0", Error::UnableToBindToPort(0).message());
}

#[test]
fn command_word_case_does_not_matter() {
    let lower = ClientToServerMessage::from_str(":src jOiN #a,#b", 7).unwrap();
    let upper = ClientToServerMessage::from_str(":src JOIN #a,#b", 7).unwrap();
    assert_eq!(lower, upper);
    assert_eq!(
        ClientToServerCommand::Join { channels: vec!["#a".to_string(), "#b".to_string()] },
        lower.command
    );
}
