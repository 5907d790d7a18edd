//! Parsing one line of client traffic into a command.

use vstd::prelude::*;
use vstd::string::StringExecFns;
use crate::error::{Error, ErrorView};
use crate::tokens::{str_eq, views, words, split_whitespace, trim_start_colons, trim_end, split_on, split_char, trim_start_colons_of, trim_end_of};

verus! {

/// A parsed line from a client, tagged with the connection it came on.
#[derive(Debug, Clone, PartialEq)]
pub struct ClientToServerMessage {
    pub source: Option<String>,
    pub command: ClientToServerCommand,
    pub connection_uuid: u128,
}

/// The commands the server understands.
#[derive(Debug, PartialEq, Clone)]
pub enum ClientToServerCommand {
    Unhandled,
    Nick { nick: String },
    Ping { token: String },
    Join { channels: Vec<String> },
    Mode { channel: String },
    Who { mask: Option<String>, only_operators: bool },
    PrivMsg { channel: String, message: String },
    User { user: String, mode: String, realname: String },
    Pong,
    Quit,
}

/// A command with its strings taken by their views.
pub enum CommandView {
    Unhandled,
    Nick { nick: Seq<char> },
    Ping { token: Seq<char> },
    Join { channels: Seq<Seq<char>> },
    Mode { channel: Seq<char> },
    Who { mask: Option<Seq<char>>, only_operators: bool },
    PrivMsg { channel: Seq<char>, message: Seq<char> },
    User { user: Seq<char>, mode: Seq<char>, realname: Seq<char> },
    Pong,
    Quit,
}

/// The view of an optional string.
pub open spec fn opt_view(o: Option<String>) -> Option<Seq<char>> {
    match o {
        Some(s) => Some(s@),
        None => None,
    }
}

impl View for ClientToServerCommand {
    type V = CommandView;

    open spec fn view(&self) -> CommandView {
        match self {
            ClientToServerCommand::Unhandled => CommandView::Unhandled,
            ClientToServerCommand::Nick { nick } => CommandView::Nick { nick: nick@ },
            ClientToServerCommand::Ping { token } => CommandView::Ping { token: token@ },
            ClientToServerCommand::Join { channels } => CommandView::Join { channels: views(channels@) },
            ClientToServerCommand::Mode { channel } => CommandView::Mode { channel: channel@ },
            ClientToServerCommand::Who { mask, only_operators } =>
                CommandView::Who { mask: opt_view(*mask), only_operators: *only_operators },
            ClientToServerCommand::PrivMsg { channel, message } =>
                CommandView::PrivMsg { channel: channel@, message: message@ },
            ClientToServerCommand::User { user, mode, realname } =>
                CommandView::User { user: user@, mode: mode@, realname: realname@ },
            ClientToServerCommand::Pong => CommandView::Pong,
            ClientToServerCommand::Quit => CommandView::Quit,
        }
    }
}

/// The views of a command parsing outcome.
pub open spec fn command_result_view(r: Result<ClientToServerCommand, Error>) -> Result<CommandView, ErrorView> {
    match r {
        Ok(c) => Ok(c@),
        Err(e) => Err(e@),
    }
}

/// The words, each followed by one space, one after the other.
pub open spec fn spaced_concat(ws: Seq<Seq<char>>) -> Seq<char>
    decreases ws.len(),
{
    if ws.len() == 0 {
        seq![]
    } else {
        spaced_concat(ws.drop_last()) + ws.last().push(' ')
    }
}

/// The text of a PRIVMSG made from the words that follow its channel.
pub open spec fn privmsg_text(rest: Seq<Seq<char>>) -> Seq<char> {
    trim_end(trim_start_colons(spaced_concat(rest)))
}

/// The error for a missing parameter called `name`.
pub open spec fn missing_param(name: Seq<char>) -> Result<CommandView, ErrorView> {
    Err(ErrorView::MessageParsingErrorMissingParameter { param_name: name })
}

/// The command words that have a meaning of their own.
pub open spec fn known_command(cmd: Seq<char>) -> bool {
    ||| cmd == "PRIVMSG"@
    ||| cmd == "NICK"@
    ||| cmd == "PING"@
    ||| cmd == "JOIN"@
    ||| cmd == "MODE"@
    ||| cmd == "WHO"@
    ||| cmd == "USER"@
    ||| cmd == "PONG"@
    ||| cmd == "QUIT"@
}

/// What an upper-cased command word followed by `params` means.
pub open spec fn command_spec(cmd: Seq<char>, params: Seq<Seq<char>>) -> Result<CommandView, ErrorView> {
    if cmd == "PRIVMSG"@ {
        if params.len() == 0 {
            missing_param("channel"@)
        } else if !(params[0].len() > 0 && params[0][0] == '#') {
            Err(ErrorView::MessageParsingErrorInvalidChannelFormat { provided_channel: params[0] })
        } else if privmsg_text(params.skip(1)).len() == 0 {
            missing_param("message"@)
        } else {
            Ok(CommandView::PrivMsg { channel: params[0], message: privmsg_text(params.skip(1)) })
        }
    } else if cmd == "NICK"@ {
        if params.len() == 0 { missing_param("nick"@) } else { Ok(CommandView::Nick { nick: params[0] }) }
    } else if cmd == "PING"@ {
        if params.len() == 0 { missing_param("token"@) } else { Ok(CommandView::Ping { token: params[0] }) }
    } else if cmd == "JOIN"@ {
        if params.len() == 0 {
            missing_param("channels"@)
        } else {
            Ok(CommandView::Join { channels: split_on(params[0], ',') })
        }
    } else if cmd == "MODE"@ {
        if params.len() == 0 { missing_param("channel"@) } else { Ok(CommandView::Mode { channel: params[0] }) }
    } else if cmd == "WHO"@ {
        Ok(CommandView::Who {
            mask: if params.len() > 0 { Some(params[0]) } else { None },
            only_operators: params.len() > 1 && params[1] == "o"@,
        })
    } else if cmd == "USER"@ {
        if params.len() == 0 {
            missing_param("user"@)
        } else if params.len() == 1 {
            missing_param("mode"@)
        } else if params.len() < 4 {
            missing_param("realname"@)
        } else {
            Ok(CommandView::User { user: params[0], mode: params[1], realname: params[3] })
        }
    } else if cmd == "PONG"@ {
        Ok(CommandView::Pong)
    } else if cmd == "QUIT"@ {
        Ok(CommandView::Quit)
    } else {
        Ok(CommandView::Unhandled)
    }
}

/// What `str::to_uppercase` returns for `s`: the Unicode upper case
/// mapping applied to every character.
pub uninterp spec fn unicode_uppercase(s: Seq<char>) -> Seq<char>;

/// Whether every character of `s` is ASCII.
pub open spec fn is_ascii_text(s: Seq<char>) -> bool {
    forall|i: int| 0 <= i < s.len() ==> (#[trigger] s[i] as u32) < 128
}

/// The ASCII upper case of `c`: `a` to `z` become `A` to `Z`, everything
/// else stays.
pub open spec fn ascii_upper_char(c: char) -> char {
    if 'a' <= c && c <= 'z' { ((c as u32) - 32) as char } else { c }
}

/// The ASCII upper case of every character of `s`.
pub open spec fn ascii_upper(s: Seq<char>) -> Seq<char> {
    s.map_values(|c: char| ascii_upper_char(c))
}

/// How a command word is upper-cased: for ASCII text the Unicode mapping
/// is the ASCII one.
pub open spec fn upper_word(w: Seq<char>) -> Seq<char> {
    if is_ascii_text(w) { ascii_upper(w) } else { unicode_uppercase(w) }
}

/// `str::to_uppercase`. On ASCII text the Unicode upper case mapping is
/// the ASCII one (each of `a` to `z` maps to the one letter `A` to `Z`,
/// every other ASCII character to itself), as std documents for ASCII.
#[verifier::external_body]
fn to_uppercase(s: &str) -> (r: String)
    ensures
        r@ == unicode_uppercase(s@),
        is_ascii_text(s@) ==> r@ == ascii_upper(s@),
{
    s.to_uppercase()
}

fn missing_parameter(name: &str) -> (r: Result<ClientToServerCommand, Error>)
    ensures
        command_result_view(r) == missing_param(name@),
{
    Err(Error::MessageParsingErrorMissingParameter { param_name: name.to_owned() })
}

/// Joins `words` into the text of a PRIVMSG.
fn privmsg_message(words: &Vec<String>, from: usize) -> (m: String)
    requires
        from <= words.len(),
    ensures
        m@ == privmsg_text(views(words@).skip(from as int)),
{
    let mut joined = String::new();
    let mut i = from;
    while i < words.len()
        invariant
            from <= i <= words.len(),
            joined@ == spaced_concat(views(words@).subrange(from as int, i as int)),
        decreases words.len() - i,
    {
        joined.append(words[i].as_str());
        crate::text::push_char(&mut joined, ' ');
        proof {
            let ws = views(words@).subrange(from as int, i + 1);
            assert(ws.drop_last() =~= views(words@).subrange(from as int, i as int));
        }
        i = i + 1;
    }
    assert(views(words@).subrange(from as int, words.len() as int) =~= views(words@).skip(from as int));
    let trimmed = trim_start_colons_of(joined.as_str());
    trim_end_of(trimmed.as_str())
}

impl ClientToServerCommand {
    /// Interprets an upper-cased command word and the words that follow it.
    pub fn parse(command: &str, params: &Vec<String>) -> (r: Result<ClientToServerCommand, Error>)
        ensures
            command_result_view(r) == command_spec(command@, views(params@)),
    {
        proof {
            assert(views(params@).len() == params@.len());
        }
        if str_eq(command, "PRIVMSG") {
            if params.len() == 0 {
                return missing_parameter("channel");
            }
            let channel = params[0].clone();
            let mut first_is_hash = false;
            let mut it = channel.as_str().chars();
            match it.next() {
                Some(c) => { first_is_hash = c == '#'; },
                None => {},
            }
            if !first_is_hash {
                return Err(Error::MessageParsingErrorInvalidChannelFormat { provided_channel: channel });
            }
            let message = privmsg_message(params, 1);
            if message.as_str().is_empty() {
                return missing_parameter("message");
            }
            Ok(ClientToServerCommand::PrivMsg { channel, message })
        } else if str_eq(command, "NICK") {
            if params.len() == 0 {
                return missing_parameter("nick");
            }
            Ok(ClientToServerCommand::Nick { nick: params[0].clone() })
        } else if str_eq(command, "PING") {
            if params.len() == 0 {
                return missing_parameter("token");
            }
            Ok(ClientToServerCommand::Ping { token: params[0].clone() })
        } else if str_eq(command, "JOIN") {
            if params.len() == 0 {
                return missing_parameter("channels");
            }
            Ok(ClientToServerCommand::Join { channels: split_char(params[0].as_str(), ',') })
        } else if str_eq(command, "MODE") {
            if params.len() == 0 {
                return missing_parameter("channel");
            }
            Ok(ClientToServerCommand::Mode { channel: params[0].clone() })
        } else if str_eq(command, "WHO") {
            let mask = if params.len() > 0 { Some(params[0].clone()) } else { None };
            let only_operators = params.len() > 1 && str_eq(params[1].as_str(), "o");
            Ok(ClientToServerCommand::Who { mask, only_operators })
        } else if str_eq(command, "USER") {
            if params.len() == 0 {
                return missing_parameter("user");
            }
            if params.len() == 1 {
                return missing_parameter("mode");
            }
            if params.len() < 4 {
                return missing_parameter("realname");
            }
            Ok(ClientToServerCommand::User {
                user: params[0].clone(),
                mode: params[1].clone(),
                realname: params[3].clone(),
            })
        } else if str_eq(command, "PONG") {
            Ok(ClientToServerCommand::Pong)
        } else if str_eq(command, "QUIT") {
            Ok(ClientToServerCommand::Quit)
        } else {
            Ok(ClientToServerCommand::Unhandled)
        }
    }
}

/// A parsed line with its strings taken by their views: source, command
/// and connection.
pub open spec fn message_view(m: ClientToServerMessage) -> (Option<Seq<char>>, CommandView, u128) {
    (opt_view(m.source), m.command@, m.connection_uuid)
}

/// The views of a line parsing outcome.
pub open spec fn message_result_view(r: Result<ClientToServerMessage, Error>)
    -> Result<(Option<Seq<char>>, CommandView, u128), ErrorView>
{
    match r {
        Ok(m) => Ok(message_view(m)),
        Err(e) => Err(e@),
    }
}

/// Whether a line names its source, i.e. starts with `':'`.
pub open spec fn has_source(s: Seq<char>) -> bool {
    s.len() > 0 && s[0] == ':'
}

/// What a line means: an optional source word (its leading colons
/// removed), then a command word (compared upper-cased, so that ASCII
/// command words are read whatever their case), then the
/// command's parameters, all separated by whitespace.
pub open spec fn line_spec(s: Seq<char>, conn: u128)
    -> Result<(Option<Seq<char>>, CommandView, u128), ErrorView>
{
    let w = words(s);
    let start: int = if has_source(s) { 1 } else { 0 };
    if w.len() <= start {
        Err(ErrorView::MessageParsingErrorMissingCommand)
    } else {
        let source = if has_source(s) { Some(trim_start_colons(w[0])) } else { None };
        match command_spec(upper_word(w[start]), w.skip(start + 1)) {
            Ok(c) => Ok((source, c, conn)),
            Err(e) => Err(e),
        }
    }
}

impl ClientToServerMessage {
    /// Parses one line received on connection `conn_uuid`.
    pub fn from_str(s: &str, conn_uuid: u128) -> (r: Result<ClientToServerMessage, Error>)
        ensures
            message_result_view(r) == line_spec(s@, conn_uuid),
    {
        let mut it = s.chars();
        let first = it.next();
        let source_present = match first {
            Some(c) => c == ':',
            None => false,
        };
        let ghost w = words(s@);
        let toks = split_whitespace(s);
        assert(views(toks@).len() == toks@.len());
        let start: usize = if source_present { 1 } else { 0 };
        if toks.len() <= start {
            return Err(Error::MessageParsingErrorMissingCommand);
        }
        let source = if source_present {
            Some(trim_start_colons_of(toks[0].as_str()))
        } else {
            None
        };
        let upper = to_uppercase(toks[start].as_str());
        let mut params: Vec<String> = Vec::new();
        let mut i = start + 1;
        while i < toks.len()
            invariant
                start + 1 <= i <= toks.len(),
                views(params@) == views(toks@).subrange(start + 1, i as int),
            decreases toks.len() - i,
        {
            let x = toks[i].clone();
            let ghost before = params@;
            params.push(x);
            proof {
                assert(views(params@) =~= views(before).push(x@));
                assert(views(toks@)[i as int] == toks@[i as int]@);
                assert(views(params@) =~= views(toks@).subrange(start + 1, i + 1));
            }
            i = i + 1;
        }
        assert(views(toks@).subrange(start + 1, toks.len() as int) =~= w.skip(start + 1));
        let command = ClientToServerCommand::parse(upper.as_str(), &params)?;
        Ok(ClientToServerMessage { source, command, connection_uuid: conn_uuid })
    }
}

} // verus!
