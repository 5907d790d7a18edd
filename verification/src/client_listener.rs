//! What a connection's reader decides: how a buffer of received bytes
//! splits into lines, when to ping the client or give up on it, and what
//! to do with each parsed command.

use vstd::prelude::*;
use vstd::utf8::{valid_utf8, decode_utf8};
use crate::error::{Error, ErrorView};
use crate::message_parsing::ClientToServerCommand;
use crate::text::push_char;
use crate::tokens::views;

verus! {

/// `std::str::from_utf8`, owned: the text the bytes encode, or `None`
/// when they are not valid UTF-8.
#[verifier::external_body]
fn utf8_text(bytes: &[u8]) -> (r: Option<String>)
    ensures
        r is Some <==> valid_utf8(bytes@),
        r matches Some(s) ==> s@ == decode_utf8(bytes@),
{
    match std::str::from_utf8(bytes) {
        Ok(s) => Some(s.to_owned()),
        Err(_) => None,
    }
}

/// Scanning `s` from the left for `"\r\n"`: the pieces completed so far
/// and the piece being read.
pub open spec fn crlf_scan(s: Seq<char>) -> (Seq<Seq<char>>, Seq<char>)
    decreases s.len(),
{
    if s.len() == 0 {
        (seq![], seq![])
    } else {
        let (done, cur) = crlf_scan(s.drop_last());
        let c = s.last();
        if c == '\n' && cur.len() > 0 && cur.last() == '\r' {
            (done.push(cur.drop_last()), seq![])
        } else {
            (done, cur.push(c))
        }
    }
}

/// The pieces of `s` between occurrences of `"\r\n"` (`str::split("\r\n")`).
pub open spec fn split_crlf(s: Seq<char>) -> Seq<Seq<char>> {
    let (done, cur) = crlf_scan(s);
    done.push(cur)
}

/// The lines a buffer of received bytes holds: every line must end with
/// `"\r\n"`. An empty buffer means the peer closed the stream.
pub open spec fn frame_spec(bytes: Seq<u8>) -> Result<Seq<Seq<char>>, ErrorView> {
    if bytes.len() == 0 {
        Err(ErrorView::MessageReadingErrorStreamClosed)
    } else if !valid_utf8(bytes) {
        Err(ErrorView::MessageReadingErrorNotUtf8)
    } else {
        let pieces = split_crlf(decode_utf8(bytes));
        if pieces.len() <= 1 {
            Err(ErrorView::MessageReadingErrorNoMessageSeparatorProvided)
        } else if pieces.last().len() != 0 {
            Err(ErrorView::MessageReadingErrorLastMessageMissingSeparator)
        } else {
            Ok(pieces.drop_last())
        }
    }
}

/// The views of a framing outcome.
pub open spec fn frame_result_view(r: Result<Vec<String>, Error>) -> Result<Seq<Seq<char>>, ErrorView> {
    match r {
        Ok(v) => Ok(views(v@)),
        Err(e) => Err(e@),
    }
}

/// Splits `s` at every `"\r\n"`.
pub fn split_lines(s: &str) -> (w: Vec<String>)
    ensures
        views(w@) == split_crlf(s@),
{
    let mut done: Vec<String> = Vec::new();
    let mut cur = String::new();
    let mut pending_cr = false;
    for c in it: s.chars()
        invariant
            it.seq() == s@,
            views(done@) == crlf_scan(s@.take(it.index() as int)).0,
            crlf_scan(s@.take(it.index() as int)).1 == if pending_cr { cur@.push('\r') } else { cur@ },
            pending_cr <==> (crlf_scan(s@.take(it.index() as int)).1.len() > 0
                && crlf_scan(s@.take(it.index() as int)).1.last() == '\r'),
    {
        let ghost i = it.index() as int;
        assert(s@.take(i + 1).drop_last() =~= s@.take(i));
        if c == '\n' && pending_cr {
            let finished = cur;
            cur = String::new();
            pending_cr = false;
            proof {
                assert(finished@.push('\r').drop_last() =~= finished@);
                assert(views(done@.push(finished)) =~= views(done@).push(finished@));
            }
            done.push(finished);
        } else if c == '\r' {
            if pending_cr {
                push_char(&mut cur, '\r');
            }
            pending_cr = true;
        } else {
            if pending_cr {
                push_char(&mut cur, '\r');
            }
            pending_cr = false;
            push_char(&mut cur, c);
        }
    }
    assert(s@.take(s@.len() as int) =~= s@);
    if pending_cr {
        push_char(&mut cur, '\r');
    }
    proof {
        assert(views(done@.push(cur)) =~= views(done@).push(cur@));
    }
    done.push(cur);
    done
}

/// Splits a buffer of received bytes into the lines it holds.
pub fn split_messages(bytes: &[u8]) -> (r: Result<Vec<String>, Error>)
    ensures
        frame_result_view(r) == frame_spec(bytes@),
{
    if bytes.len() == 0 {
        return Err(Error::MessageReadingErrorStreamClosed);
    }
    let text = match utf8_text(bytes) {
        Some(t) => t,
        None => return Err(Error::MessageReadingErrorNotUtf8),
    };
    let mut lines = split_lines(text.as_str());
    let ghost pieces = views(lines@);
    if lines.len() <= 1 {
        return Err(Error::MessageReadingErrorNoMessageSeparatorProvided);
    }
    let last = lines.pop();
    match last {
        Some(l) => {
            assert(pieces.last() == l@);
            if !l.as_str().is_empty() {
                return Err(Error::MessageReadingErrorLastMessageMissingSeparator);
            }
        },
        None => {},
    }
    assert(views(lines@) =~= pieces.drop_last());
    Ok(lines)
}

/// Whether the reader is waiting for the client to answer a ping.
pub struct PongTracker {
    pub waiting_for_pong: bool,
}

/// What the reader does before it reads again.
#[derive(Debug, PartialEq, Eq)]
pub enum TickAction {
    /// The client did not answer the last ping in time: stop reading.
    Stop,
    /// Send the client a ping, then read.
    SendPingThenRead,
    /// Just read.
    Read,
}

impl PongTracker {
    /// A reader that is not waiting for a pong.
    pub fn new() -> (t: PongTracker)
        ensures
            !t.waiting_for_pong,
    {
        PongTracker { waiting_for_pong: false }
    }

    /// Decides what to do `elapsed_secs` seconds after the last pong (or
    /// the start), with a ping due every `ping_frequency_secs` seconds and
    /// five seconds of grace for the answer.
    pub fn on_tick(&mut self, elapsed_secs: u64, ping_frequency_secs: u64) -> (a: TickAction)
        ensures
            old(self).waiting_for_pong && elapsed_secs > ping_frequency_secs + 5 ==> {
                &&& a == TickAction::Stop
                &&& final(self).waiting_for_pong == old(self).waiting_for_pong
            },
            !(old(self).waiting_for_pong && elapsed_secs > ping_frequency_secs + 5) ==> {
                &&& elapsed_secs > ping_frequency_secs ==> a == TickAction::SendPingThenRead && final(self).waiting_for_pong
                &&& elapsed_secs <= ping_frequency_secs ==> a == TickAction::Read
                    && final(self).waiting_for_pong == old(self).waiting_for_pong
            },
    {
        if self.waiting_for_pong {
            // Whether the grace period is over; a period that would end
            // past the largest `u64` never does.
            let overdue = match ping_frequency_secs.checked_add(5) {
                Some(limit) => elapsed_secs > limit,
                None => false,
            };
            if overdue {
                return TickAction::Stop;
            }
        }
        if elapsed_secs > ping_frequency_secs {
            self.waiting_for_pong = true;
            return TickAction::SendPingThenRead;
        }
        TickAction::Read
    }

    /// Decides what to do with a command read from the client.
    pub fn on_command(&mut self, command: &ClientToServerCommand) -> (a: CommandAction)
        ensures
            match *command {
                ClientToServerCommand::Unhandled => a == CommandAction::Ignore
                    && final(self).waiting_for_pong == old(self).waiting_for_pong,
                ClientToServerCommand::Pong => a == CommandAction::PongReceived && !final(self).waiting_for_pong,
                ClientToServerCommand::Quit => a == CommandAction::ForwardThenStop
                    && final(self).waiting_for_pong == old(self).waiting_for_pong,
                _ => a == CommandAction::Forward && final(self).waiting_for_pong == old(self).waiting_for_pong,
            },
    {
        match command {
            ClientToServerCommand::Unhandled => CommandAction::Ignore,
            ClientToServerCommand::Pong => {
                self.waiting_for_pong = false;
                CommandAction::PongReceived
            },
            ClientToServerCommand::Quit => CommandAction::ForwardThenStop,
            _ => CommandAction::Forward,
        }
    }
}

/// What the reader does with one command.
#[derive(Debug, PartialEq, Eq)]
pub enum CommandAction {
    /// Nothing handles it; it is only logged.
    Ignore,
    /// The client answered a ping: restart the pong clock.
    PongReceived,
    /// Pass it on to the server.
    Forward,
    /// Pass it on to the server, then stop reading.
    ForwardThenStop,
}

} // verus!
