//! A general IRC message shape, read by the message grammar:
//!
//! ```text
//! <message> ::= [':' <prefix> <SPACE>] <command> <params>
//! <prefix>  ::= <servername> | <nick> ['!' <user>] ['@' <host>]
//! <command> ::= <letter> {<letter>} | <number> <number> <number>
//! <SPACE>   ::= ' ' {' '}
//! ```
//!
//! Only the space character separates the parts; the parameters are kept
//! as sent, after the spaces that follow the command.

use vstd::prelude::*;
use crate::text::{chars_of, text_of};

verus! {

/// An IRC message: `[':' prefix SPACE] command params`.
#[derive(Debug)]
pub struct IrcMessage {
    pub prefix: Option<IrcMessagePrefix>,
    pub command: String,
    pub params: String,
}

/// The prefix of an IRC message: a server name or a nick, with an
/// optional user and host.
#[derive(Debug)]
pub struct IrcMessagePrefix {
    prefix: String,
    user: Option<String>,
    host: Option<String>,
}

/// A prefix with its strings taken by their views.
pub struct PrefixView {
    pub name: Seq<char>,
    pub user: Option<Seq<char>>,
    pub host: Option<Seq<char>>,
}

/// A message with its strings taken by their views.
pub struct MessageView {
    pub prefix: Option<PrefixView>,
    pub command: Seq<char>,
    pub params: Seq<char>,
}

/// How many characters at the start of `s` are `c` (when `same`) or are
/// not `c` (when not `same`).
pub open spec fn run_len(s: Seq<char>, c: char, same: bool) -> nat
    decreases s.len(),
{
    if s.len() > 0 && (s[0] == c) == same {
        1 + run_len(s.drop_first(), c, same)
    } else {
        0
    }
}

/// `run_len` is the length of the longest such run.
pub proof fn lemma_run_len(s: Seq<char>, c: char, same: bool, k: int)
    requires
        0 <= k <= s.len(),
        forall|j: int| 0 <= j < k ==> (s[j] == c) == same,
        k == s.len() || (s[k] == c) != same,
    ensures
        run_len(s, c, same) == k,
    decreases k,
{
    if k > 0 {
        let t = s.drop_first();
        assert forall|j: int| 0 <= j < k - 1 implies (t[j] == c) == same by {
            assert(t[j] == s[j + 1]);
        }
        if k < s.len() {
            assert(t[k - 1] == s[k]);
        }
        lemma_run_len(t, c, same, k - 1);
    }
}

/// An ASCII letter.
pub open spec fn is_letter(c: char) -> bool {
    ('a' <= c && c <= 'z') || ('A' <= c && c <= 'Z')
}

/// An ASCII digit.
pub open spec fn is_digit(c: char) -> bool {
    '0' <= c && c <= '9'
}

/// A command word: one or more letters, or exactly three digits.
pub open spec fn is_command(c: Seq<char>) -> bool {
    ||| c.len() >= 1 && forall|i: int| 0 <= i < c.len() ==> is_letter(#[trigger] c[i])
    ||| c.len() == 3 && forall|i: int| 0 <= i < c.len() ==> is_digit(#[trigger] c[i])
}

/// Reads a prefix `name ['!' user] ['@' host]`: the host follows the
/// first `@`, the user the first `!` before it. Each part present must be
/// non-empty.
pub open spec fn prefix_spec(p: Seq<char>) -> Option<PrefixView> {
    let at = run_len(p, '@', false) as int;
    let before = p.take(at);
    let host = if at < p.len() { Some(p.skip(at + 1)) } else { None };
    let bang = run_len(before, '!', false) as int;
    let name = before.take(bang);
    let user = if bang < before.len() { Some(before.skip(bang + 1)) } else { None };
    if name.len() > 0 && (user matches Some(u) ==> u.len() > 0) && (host matches Some(h) ==> h.len() > 0) {
        Some(PrefixView { name, user, host })
    } else {
        None
    }
}

/// Reads `<command> <params>` from `s`, with the prefix already read.
pub open spec fn command_spec(s: Seq<char>, prefix: Option<PrefixView>) -> Option<MessageView> {
    let t = run_len(s, ' ', false) as int;
    let command = s.take(t);
    let rest = s.skip(t);
    if is_command(command) {
        Some(MessageView { prefix, command, params: rest.skip(run_len(rest, ' ', true) as int) })
    } else {
        None
    }
}

/// Reads a whole message; `None` where the line does not follow the
/// grammar.
pub open spec fn message_spec(s: Seq<char>) -> Option<MessageView> {
    if s.len() > 0 && s[0] == ':' {
        let body = s.drop_first();
        let t = run_len(body, ' ', false) as int;
        let after = body.skip(t);
        let n = run_len(after, ' ', true) as int;
        match prefix_spec(body.take(t)) {
            Some(pv) => if n > 0 { command_spec(after.skip(n), Some(pv)) } else { None },
            None => None,
        }
    } else {
        command_spec(s, None)
    }
}

impl View for IrcMessagePrefix {
    type V = PrefixView;

    closed spec fn view(&self) -> PrefixView {
        PrefixView {
            name: self.prefix@,
            user: match self.user { Some(u) => Some(u@), None => None },
            host: match self.host { Some(h) => Some(h@), None => None },
        }
    }
}

/// An optional prefix taken by its view.
pub open spec fn prefix_opt_view(o: Option<IrcMessagePrefix>) -> Option<PrefixView> {
    match o {
        Some(p) => Some(p@),
        None => None,
    }
}

/// A message with its strings taken by their views.
pub open spec fn message_view(m: IrcMessage) -> MessageView {
    MessageView {
        prefix: prefix_opt_view(m.prefix),
        command: m.command@,
        params: m.params@,
    }
}

/// Where the run of characters that are (or are not) `c` that starts at
/// `start` ends, looking no further than `end`.
fn run_end(v: &Vec<char>, start: usize, end: usize, c: char, same: bool) -> (e: usize)
    requires
        start <= end <= v.len(),
    ensures
        start <= e <= end,
        e - start == run_len(v@.subrange(start as int, end as int), c, same),
{
    let mut i = start;
    while i < end && (v[i] == c) == same
        invariant
            start <= i <= end <= v.len(),
            forall|j: int| start <= j < i ==> (v@[j] == c) == same,
        decreases end - i,
    {
        i = i + 1;
    }
    proof {
        let s = v@.subrange(start as int, end as int);
        assert forall|j: int| 0 <= j < i - start implies (s[j] == c) == same by {
            assert(s[j] == v@[start + j]);
        }
        if i < end {
            assert(s[i - start] == v@[i as int]);
        }
        lemma_run_len(s, c, same, i - start);
    }
    i
}

/// Whether `v[from..to]` is a command word.
fn command_ok(v: &Vec<char>, from: usize, to: usize) -> (b: bool)
    requires
        from <= to <= v.len(),
    ensures
        b == is_command(v@.subrange(from as int, to as int)),
{
    let ghost c = v@.subrange(from as int, to as int);
    if from == to {
        return false;
    }
    let mut letters = true;
    let mut digits = to - from == 3;
    let mut i = from;
    while i < to
        invariant
            from <= i <= to <= v.len(),
            c == v@.subrange(from as int, to as int),
            letters == forall|j: int| 0 <= j < i - from ==> is_letter(#[trigger] c[j]),
            digits == (c.len() == 3 && forall|j: int| 0 <= j < i - from ==> is_digit(#[trigger] c[j])),
        decreases to - i,
    {
        let x = v[i];
        assert(c[i - from] == x);
        letters = letters && (('a' <= x && x <= 'z') || ('A' <= x && x <= 'Z'));
        digits = digits && '0' <= x && x <= '9';
        i = i + 1;
    }
    letters || digits
}

impl IrcMessagePrefix {
    /// The server name or nick.
    pub fn name(&self) -> (r: &str)
        ensures
            r@ == self@.name,
    {
        self.prefix.as_str()
    }

    /// The user, if one is given.
    pub fn user(&self) -> (r: &Option<String>)
        ensures
            (match *r { Some(u) => Some(u@), None => None }) == self@.user,
    {
        &self.user
    }

    /// The host, if one is given.
    pub fn host(&self) -> (r: &Option<String>)
        ensures
            (match *r { Some(h) => Some(h@), None => None }) == self@.host,
    {
        &self.host
    }

    /// Reads a prefix (without its leading `:`) by the grammar; fails where
    /// a part is empty.
    pub fn from_str(s: &str) -> (r: Result<IrcMessagePrefix, ()>)
        ensures
            match r {
                Ok(p) => prefix_spec(s@) == Some(p@),
                Err(_) => prefix_spec(s@) is None,
            },
    {
        let v = chars_of(s);
        let n = v.len();
        let at = run_end(&v, 0, n, '@', false);
        let bang = run_end(&v, 0, at, '!', false);
        proof {
            assert(v@.subrange(0, n as int) =~= s@);
            assert(v@.subrange(0, at as int) =~= s@.take(at as int));
        }
        if bang == 0 {
            return Err(());
        }
        let name = text_of(&v, 0, bang);
        let user = if bang < at {
            if bang + 1 == at {
                return Err(());
            }
            Some(text_of(&v, bang + 1, at))
        } else {
            None
        };
        let host = if at < n {
            if at + 1 == n {
                return Err(());
            }
            Some(text_of(&v, at + 1, n))
        } else {
            None
        };
        let p = IrcMessagePrefix { prefix: name, user, host };
        proof {
            let before = s@.take(at as int);
            assert(name@ =~= before.take(bang as int));
            if bang < at {
                assert(user.unwrap()@ =~= before.skip(bang + 1));
            }
            if at < n {
                assert(host.unwrap()@ =~= s@.skip(at + 1));
            }
        }
        Ok(p)
    }
}

impl IrcMessage {
    /// Reads a message line by the grammar; fails where it has no command
    /// word, an empty prefix part, or a prefix with nothing after it.
    pub fn from_str(s: &str) -> (r: Result<IrcMessage, ()>)
        ensures
            match r {
                Ok(m) => message_spec(s@) == Some(message_view(m)),
                Err(_) => message_spec(s@) is None,
            },
    {
        let v = chars_of(s);
        let n = v.len();
        let mut start: usize = 0;
        let mut prefix: Option<IrcMessagePrefix> = None;
        if n > 0 && v[0] == ':' {
            let t = run_end(&v, 1, n, ' ', false);
            let after = run_end(&v, t, n, ' ', true);
            let token = text_of(&v, 1, t);
            proof {
                let body = s@.drop_first();
                assert(v@.subrange(1, n as int) =~= body);
                assert(token@ =~= body.take(t - 1));
                assert(v@.subrange(t as int, n as int) =~= body.skip(t - 1));
            }
            let p = IrcMessagePrefix::from_str(token.as_str())?;
            if after == t {
                return Err(());
            }
            start = after;
            prefix = Some(p);
            proof {
                assert(v@.subrange(start as int, n as int) =~= s@.drop_first().skip(t - 1).skip(after - t));
            }
        } else {
            assert(v@.subrange(0, n as int) =~= s@);
        }
        let ghost pv = prefix_opt_view(prefix);
        let ghost rest_s = v@.subrange(start as int, n as int);
        assert(message_spec(s@) == command_spec(rest_s, pv));
        let c_end = run_end(&v, start, n, ' ', false);
        if !command_ok(&v, start, c_end) {
            proof {
                assert(v@.subrange(start as int, c_end as int) =~= rest_s.take(c_end - start));
            }
            return Err(());
        }
        let p_start = run_end(&v, c_end, n, ' ', true);
        let command = text_of(&v, start, c_end);
        let params = text_of(&v, p_start, n);
        proof {
            assert(command@ =~= rest_s.take(c_end - start));
            assert(v@.subrange(c_end as int, n as int) =~= rest_s.skip(c_end - start));
            assert(params@ =~= rest_s.skip(c_end - start).skip(p_start - c_end));
        }
        Ok(IrcMessage { prefix, command, params })
    }
}

} // verus!
