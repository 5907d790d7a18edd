use rust_irc::messages::{IrcMessage, IrcMessagePrefix};

#[test]
fn test_one() {
    let raw_str = "NICK vince";
    let _parsed_message = IrcMessage::from_str(raw_str).expect("foo");
}

#[test]
fn irc_message_without_prefix() {
    let m = IrcMessage::from_str("NICK vince").unwrap();
    assert!(m.prefix.is_none());
    assert_eq!("NICK", m.command);
    assert_eq!("vince", m.params);
}

#[test]
fn irc_message_with_full_prefix_and_trailing() {
    let m = IrcMessage::from_str(":vince!~vince@host.example  PRIVMSG #rust :hello  there").unwrap();
    let p = m.prefix.unwrap();
    assert_eq!("vince", p.name());
    assert_eq!(&Some("~vince".to_string()), p.user());
    assert_eq!(&Some("host.example".to_string()), p.host());
    assert_eq!("PRIVMSG", m.command);
    assert_eq!("#rust :hello  there", m.params);
}

#[test]
fn irc_message_numeric_command_and_no_params() {
    let m = IrcMessage::from_str(":irc.server 001").unwrap();
    let p = m.prefix.unwrap();
    assert_eq!("irc.server", p.name());
    assert_eq!(&None, p.user());
    assert_eq!(&None, p.host());
    assert_eq!("001", m.command);
    assert_eq!("", m.params);
}

#[test]
fn irc_message_bad_commands_fail() {
    assert!(IrcMessage::from_str("").is_err());
    assert!(IrcMessage::from_str(" NICK vince").is_err());
    assert!(IrcMessage::from_str("01 x").is_err());
    assert!(IrcMessage::from_str("0012 x").is_err());
    assert!(IrcMessage::from_str("NI3K x").is_err());
    assert!(IrcMessage::from_str("NICK\tvince").is_err());
}

#[test]
fn irc_message_bad_prefixes_fail() {
    assert!(IrcMessage::from_str(":NICK").is_err());
    assert!(IrcMessage::from_str(": NICK vince").is_err());
    assert!(IrcMessage::from_str(":nick! NICK vince").is_err());
    assert!(IrcMessage::from_str(":nick@ NICK vince").is_err());
}

#[test]
fn prefix_user_and_host_are_split_at_first_marks() {
    let p = IrcMessagePrefix::from_str("a!b!c@d@e").unwrap();
    assert_eq!("a", p.name());
    assert_eq!(&Some("b!c".to_string()), p.user());
    assert_eq!(&Some("d@e".to_string()), p.host());
    let q = IrcMessagePrefix::from_str("a@h").unwrap();
    assert_eq!(&None, q.user());
    assert_eq!(&Some("h".to_string()), q.host());
    assert!(IrcMessagePrefix::from_str("!u").is_err());
}
