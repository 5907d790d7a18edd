//! Properties that hold across the library's operations.

use vstd::prelude::*;
use vstd::utf8::{encode_utf8, decode_utf8, valid_utf8};
use crate::client_listener::{crlf_scan, split_crlf, frame_spec};
use crate::client_sender::reply_line;
use crate::context::{ConnectionContext, without, with_member, lemma_without};
use crate::handlers::join::{join_scan, notify_join, join_replies, member_nicks};
use crate::handlers::part::{part_scan, notify_part};
use crate::handlers::who::{mask_members, hostmask};
use crate::handlers::nick::welcome_replies;
use crate::message_parsing::spaced_concat;
use crate::util::mask_matches;
use crate::handlers::privmsg::relay_targets;
use crate::replies::{ReplyView, reply_text, numeric_of};
use crate::time::Timestamp;
use crate::message_parsing::{line_spec, has_source, is_ascii_text, ascii_upper, ascii_upper_char, upper_word, known_command, CommandView};
use crate::error::ErrorView;
use crate::tokens::trim_start_colons;
use crate::tokens::words;

verus! {

/// Whether `s` holds no `"\r\n"`.
pub open spec fn crlf_free(s: Seq<char>) -> bool {
    forall|i: int, j: int| 0 <= i && j == i + 1 && j < s.len() ==> !(#[trigger] s[i] == '\r' && #[trigger] s[j] == '\n')
}

/// The lines one after the other, each ended by `"\r\n"`.
pub open spec fn joined_lines(lines: Seq<Seq<char>>) -> Seq<char>
    decreases lines.len(),
{
    if lines.len() == 0 {
        seq![]
    } else {
        joined_lines(lines.drop_last()) + lines.last() + seq!['\r', '\n']
    }
}

proof fn lemma_scan_extend(p: Seq<char>, t: Seq<char>)
    requires
        crlf_free(crlf_scan(p).1 + t),
    ensures
        crlf_scan(p + t) == (crlf_scan(p).0, crlf_scan(p).1 + t),
    decreases t.len(),
{
    let (d, c) = crlf_scan(p);
    if t.len() == 0 {
        assert(p + t =~= p);
        assert(c + t =~= c);
    } else {
        let t0 = t.drop_last();
        assert(crlf_free(c + t0)) by {
            assert forall|i: int, j: int| 0 <= i && j == i + 1 && j < (c + t0).len() implies !(#[trigger] (c + t0)[i] == '\r' && #[trigger] (c + t0)[j] == '\n') by {
                assert((c + t0)[i] == (c + t)[i]);
                assert((c + t0)[j] == (c + t)[j]);
            }
        }
        lemma_scan_extend(p, t0);
        assert((p + t).drop_last() =~= p + t0);
        let x = t.last();
        let cur = c + t0;
        if x == '\n' && cur.len() > 0 && cur.last() == '\r' {
            let a = cur.len() - 1;
            let b = cur.len() as int;
            assert((c + t)[a] == '\r');
            assert((c + t)[b] == '\n');
            assert(false);
        }
        assert(cur.push(x) =~= c + t);
    }
}

/// Lines without `"\r\n"` in them, each sent with `"\r\n"` after it, split
/// back into the same lines, followed by the empty rest.
pub proof fn law_lines_split_back(lines: Seq<Seq<char>>)
    requires
        forall|i: int| 0 <= i < lines.len() ==> crlf_free(#[trigger] lines[i]),
    ensures
        crlf_scan(joined_lines(lines)) == (lines, Seq::<char>::empty()),
        split_crlf(joined_lines(lines)) == lines.push(seq![]),
    decreases lines.len(),
{
    if lines.len() == 0 {
        assert(joined_lines(lines) =~= Seq::<char>::empty());
        assert(lines =~= Seq::<Seq<char>>::empty());
    } else {
        let init = lines.drop_last();
        let l = lines.last();
        assert forall|i: int| 0 <= i < init.len() implies crlf_free(#[trigger] init[i]) by {
            assert(init[i] == lines[i]);
        }
        law_lines_split_back(init);
        let p = joined_lines(init);
        assert(crlf_free(lines[lines.len() - 1]));
        let lr = l.push('\r');
        assert(crlf_free(Seq::<char>::empty() + lr)) by {
            assert(Seq::<char>::empty() + lr =~= lr);
            assert forall|i: int, j: int| 0 <= i && j == i + 1 && j < lr.len() implies !(#[trigger] lr[i] == '\r' && #[trigger] lr[j] == '\n') by {
                assert(lr[i] == l[i]);
                if j < l.len() {
                    assert(lr[j] == l[j]);
                }
            }
        }
        lemma_scan_extend(p, lr);
        assert(Seq::<char>::empty() + lr =~= lr);
        let whole = joined_lines(lines);
        assert(whole =~= (p + lr).push('\n'));
        assert(whole.drop_last() =~= p + lr);
        assert(lr.drop_last() =~= l);
        assert(init.push(l) =~= lines);
    }
}

/// A non-empty run of lines without `"\r\n"` in them, sent as UTF-8 with
/// `"\r\n"` after each, is read back as exactly those lines.
pub proof fn law_frame_round_trip(lines: Seq<Seq<char>>)
    requires
        lines.len() > 0,
        forall|i: int| 0 <= i < lines.len() ==> crlf_free(#[trigger] lines[i]),
    ensures
        frame_spec(encode_utf8(joined_lines(lines))) == Ok::<Seq<Seq<char>>, crate::error::ErrorView>(lines),
{
    broadcast use vstd::utf8::encode_utf8_valid_utf8, vstd::utf8::encode_utf8_decode_utf8;
    law_lines_split_back(lines);
    let text = joined_lines(lines);
    let bytes = encode_utf8(text);
    assert(valid_utf8(bytes));
    assert(decode_utf8(bytes) == text);
    assert(text.len() >= 2) by {
        assert(text =~= joined_lines(lines.drop_last()) + lines.last() + seq!['\r', '\n']);
    }
    if bytes.len() == 0 {
        assert(bytes =~= Seq::<u8>::empty());
        assert(decode_utf8(Seq::<u8>::empty()) =~= Seq::<char>::empty());
    }
    assert(lines.push(seq![]).drop_last() =~= lines);
}

/// A reply whose text holds no `"\r\n"` is written by a connection's
/// writer as one line that the reading side splits back into that text.
pub proof fn law_reply_line_reads_back(r: ReplyView)
    requires
        crlf_free(reply_text(r)),
    ensures
        frame_spec(encode_utf8(reply_line(r))) == Ok::<Seq<Seq<char>>, crate::error::ErrorView>(seq![reply_text(r)]),
{
    let lines = seq![reply_text(r)];
    reveal_strlit("\r\n");
    assert(joined_lines(lines) =~= reply_line(r)) by {
        assert(lines.drop_last() =~= Seq::<Seq<char>>::empty());
        assert(joined_lines(lines.drop_last()) =~= Seq::<char>::empty());
    }
    law_frame_round_trip(lines);
}

/// Everyone who joins a list of channels is a member of each of them
/// afterwards, and every channel there was before is still there.
pub proof fn law_joiner_is_member(
    start: Map<Seq<char>, Seq<u128>>,
    list: Seq<Seq<char>>,
    server_host: Seq<char>,
    nick: Seq<char>,
    client: Seq<char>,
    joiner: u128,
    connections: Map<u128, ConnectionContext>,
    now: Timestamp,
)
    ensures
        ({
            let chans = join_scan(start, list, server_host, nick, client, joiner, connections, now).0;
            &&& forall|i: int| 0 <= i < list.len() ==> chans.contains_key(#[trigger] list[i]) && chans[list[i]].contains(joiner)
            &&& forall|k: Seq<char>| start.contains_key(k) ==> #[trigger] chans.contains_key(k)
        }),
    decreases list.len(),
{
    broadcast use vstd::seq_lib::lemma_seq_contains_after_push;
    if list.len() > 0 {
        let init = list.drop_last();
        law_joiner_is_member(start, init, server_host, nick, client, joiner, connections, now);
        let prev = join_scan(start, init, server_host, nick, client, joiner, connections, now).0;
        let ch = list.last();
        let members = if prev.contains_key(ch) { with_member(prev[ch], joiner) } else { seq![joiner] };
        assert(members.contains(joiner)) by {
            if !prev.contains_key(ch) {
                assert(members[0] == joiner);
            }
        }
        let chans = join_scan(start, list, server_host, nick, client, joiner, connections, now).0;
        assert(chans == prev.insert(ch, members));
        assert forall|i: int| 0 <= i < list.len() implies chans.contains_key(#[trigger] list[i]) && chans[list[i]].contains(joiner) by {
            if i < init.len() {
                assert(init[i] == list[i]);
                if list[i] != ch {
                    assert(prev.contains_key(init[i]));
                }
            }
        }
    }
}

/// Joining one channel and then leaving it gives back the channels there
/// were before, except that a channel the join created stays, empty.
pub proof fn law_join_then_part(
    start: Map<Seq<char>, Seq<u128>>,
    ch: Seq<char>,
    server_host: Seq<char>,
    nick: Seq<char>,
    client: Seq<char>,
    id: u128,
    connections: Map<u128, ConnectionContext>,
    now: Timestamp,
)
    requires
        start.contains_key(ch) ==> !start[ch].contains(id),
    ensures
        part_scan(join_scan(start, seq![ch], server_host, nick, client, id, connections, now).0, seq![ch], client, id).0
            == if start.contains_key(ch) { start } else { start.insert(ch, seq![]) },
{
    broadcast use vstd::seq_lib::lemma_seq_contains_after_push;
    reveal_with_fuel(join_scan, 2);
    reveal_with_fuel(part_scan, 2);
    reveal_with_fuel(without, 2);
    let one = seq![ch];
    assert(one.drop_last() =~= Seq::<Seq<char>>::empty());
    assert(one.last() == ch);
    let joined = join_scan(start, one, server_host, nick, client, id, connections, now).0;
    if start.contains_key(ch) {
        let s = start[ch];
        assert(with_member(s, id) == s.push(id));
        assert(joined == start.insert(ch, s.push(id)));
        lemma_without(s, id);
        assert(s.push(id).drop_last() =~= s);
        assert(without(s.push(id), id) == without(s, id));
        assert(joined[ch].contains(id));
        assert(part_scan(joined, one, client, id).0 == joined.insert(ch, without(joined[ch], id)));
        assert(joined.insert(ch, s) =~= start);
    } else {
        let s = seq![id];
        assert(joined == start.insert(ch, s));
        assert(s.drop_last() =~= Seq::<u128>::empty());
        assert(without(s, id) =~= Seq::<u128>::empty());
        assert(joined[ch].contains(id)) by {
            assert(s[0] == id);
        }
        assert(joined.insert(ch, without(s, id)) =~= start.insert(ch, seq![]));
    }
}

/// When every connection is filed under its own id, a channel message is
/// never relayed back to its sender.
pub proof fn law_privmsg_not_echoed(members: Seq<u128>, sender: u128, connections: Map<u128, ConnectionContext>)
    requires
        forall|k: u128| #[trigger] connections.contains_key(k) ==> connections[k].connection_id == k,
    ensures
        !relay_targets(members, sender, connections).contains(sender),
{
}

/// After a quit, the connection is in no channel.
pub proof fn law_quit_leaves_every_channel(
    before: Map<Seq<char>, Seq<u128>>,
    after: Map<Seq<char>, Seq<u128>>,
    id: u128,
)
    requires
        after.dom() == before.dom(),
        forall|ch: Seq<char>| #[trigger] after.contains_key(ch) ==> after[ch] == without(before[ch], id),
    ensures
        forall|ch: Seq<char>| #[trigger] after.contains_key(ch) ==> !after[ch].contains(id),
{
    assert forall|ch: Seq<char>| #[trigger] after.contains_key(ch) implies !after[ch].contains(id) by {
        lemma_without(before[ch], id);
    }
}

/// Command words are compared by their upper case: two lines that differ
/// only in a command word with the same upper case mean the same.
pub proof fn law_command_case_insensitive(s1: Seq<char>, s2: Seq<char>, conn: u128)
    requires
        has_source(s1) == has_source(s2),
        words(s1).len() == words(s2).len(),
        ({
            let start: int = if has_source(s1) { 1 } else { 0 };
            &&& forall|i: int| 0 <= i < words(s1).len() && i != start ==> #[trigger] words(s1)[i] == words(s2)[i]
            &&& start < words(s1).len() ==> upper_word(words(s1)[start]) == upper_word(words(s2)[start])
        }),
    ensures
        line_spec(s1, conn) == line_spec(s2, conn),
{
    let w1 = words(s1);
    let w2 = words(s2);
    let start: int = if has_source(s1) { 1 } else { 0 };
    if start < w1.len() {
        assert(w1.skip(start + 1) =~= w2.skip(start + 1)) by {
            assert forall|j: int| 0 <= j < w1.skip(start + 1).len() implies #[trigger] w1.skip(start + 1)[j] == w2.skip(start + 1)[j] by {
                assert(w1[start + 1 + j] == w2[start + 1 + j]);
            }
        }
        if start == 1 {
            assert(w1[0] == w2[0]);
        }
    }
}

/// ASCII command words that differ only in the case of their letters have
/// the same upper case.
pub proof fn law_ascii_case_variants(w1: Seq<char>, w2: Seq<char>)
    requires
        is_ascii_text(w1),
        is_ascii_text(w2),
        w1.len() == w2.len(),
        forall|i: int| 0 <= i < w1.len() ==> ascii_upper_char(#[trigger] w1[i]) == ascii_upper_char(w2[i]),
    ensures
        upper_word(w1) == upper_word(w2),
{
    assert(ascii_upper(w1) =~= ascii_upper(w2));
}

/// The command word alone decides an unknown command, PONG and QUIT,
/// whatever parameters follow it.
pub proof fn law_command_word_decides(s: Seq<char>, conn: u128)
    requires
        words(s).len() > (if has_source(s) { 1int } else { 0int }),
    ensures
        ({
            let start: int = if has_source(s) { 1 } else { 0 };
            let w = words(s);
            let source = if has_source(s) { Some(trim_start_colons(w[0])) } else { None };
            let up = upper_word(w[start]);
            &&& !known_command(up) ==> line_spec(s, conn) == Ok::<_, ErrorView>((source, CommandView::Unhandled, conn))
            &&& up == "PONG"@ ==> line_spec(s, conn) == Ok::<_, ErrorView>((source, CommandView::Pong, conn))
            &&& up == "QUIT"@ ==> line_spec(s, conn) == Ok::<_, ErrorView>((source, CommandView::Quit, conn))
        }),
{
    reveal_strlit("PRIVMSG");
    reveal_strlit("NICK");
    reveal_strlit("PING");
    reveal_strlit("JOIN");
    reveal_strlit("MODE");
    reveal_strlit("WHO");
    reveal_strlit("USER");
    reveal_strlit("PONG");
    reveal_strlit("QUIT");
    assert("PONG"@ != "PRIVMSG"@) by { assert("PONG"@.len() != "PRIVMSG"@.len()); }
    assert("PONG"@ != "NICK"@) by { assert("PONG"@[0] != "NICK"@[0]); }
    assert("PONG"@ != "PING"@) by { assert("PONG"@[1] != "PING"@[1]); }
    assert("PONG"@ != "JOIN"@) by { assert("PONG"@[0] != "JOIN"@[0]); }
    assert("PONG"@ != "MODE"@) by { assert("PONG"@[0] != "MODE"@[0]); }
    assert("PONG"@ != "WHO"@) by { assert("PONG"@.len() != "WHO"@.len()); }
    assert("PONG"@ != "USER"@) by { assert("PONG"@[0] != "USER"@[0]); }
    assert("QUIT"@ != "PRIVMSG"@) by { assert("QUIT"@.len() != "PRIVMSG"@.len()); }
    assert("QUIT"@ != "NICK"@) by { assert("QUIT"@[0] != "NICK"@[0]); }
    assert("QUIT"@ != "PING"@) by { assert("QUIT"@[0] != "PING"@[0]); }
    assert("QUIT"@ != "JOIN"@) by { assert("QUIT"@[0] != "JOIN"@[0]); }
    assert("QUIT"@ != "MODE"@) by { assert("QUIT"@[0] != "MODE"@[0]); }
    assert("QUIT"@ != "WHO"@) by { assert("QUIT"@.len() != "WHO"@.len()); }
    assert("QUIT"@ != "USER"@) by { assert("QUIT"@[0] != "USER"@[0]); }
    assert("QUIT"@ != "PONG"@) by { assert("QUIT"@[0] != "PONG"@[0]); }
    let start: int = if has_source(s) { 1 } else { 0 };
    let w = words(s);
    let up = upper_word(w[start]);
    let params = w.skip(start + 1);
    if !known_command(up) {
        assert(crate::message_parsing::command_spec(up, params) == Ok::<_, ErrorView>(CommandView::Unhandled));
    }
    if up == "PONG"@ {
        assert(crate::message_parsing::command_spec(up, params) == Ok::<_, ErrorView>(CommandView::Pong));
    }
    if up == "QUIT"@ {
        assert(crate::message_parsing::command_spec(up, params) == Ok::<_, ErrorView>(CommandView::Quit));
    }
}

/// Every numeric reply starts with `:`, the server host, a space, its
/// three-digit code and a space.
pub proof fn law_numeric_reply_prefix(r: ReplyView)
    ensures
        numeric_of(r) matches Some((h, code)) ==> {
            &&& code.len() == 3
            &&& forall|i: int| 0 <= i < 3 ==> '0' <= #[trigger] code[i] && code[i] <= '9'
            &&& (":"@ + h + " "@ + code + " "@).is_prefix_of(reply_text(r))
        },
{
    reveal_strlit(":");
    reveal_strlit(" ");
    match r {
        ReplyView::Welcome { .. } => {
            reveal_strlit(" 001 ");
        },
        ReplyView::YourHost { .. } => {
            reveal_strlit(" 002 ");
        },
        ReplyView::Created { .. } => {
            reveal_strlit(" 003 ");
        },
        ReplyView::MyInfo { .. } => {
            reveal_strlit(" 004 ");
        },
        ReplyView::Support { .. } => {
            reveal_strlit(" 005 ");
        },
        ReplyView::StatsDLine { .. } => {
            reveal_strlit(" 250 ");
        },
        ReplyView::LuserClient { .. } => {
            reveal_strlit(" 251 ");
        },
        ReplyView::LuserOp { .. } => {
            reveal_strlit(" 252 ");
        },
        ReplyView::LuserUnknown { .. } => {
            reveal_strlit(" 253 ");
        },
        ReplyView::LuserChannels { .. } => {
            reveal_strlit(" 254 ");
        },
        ReplyView::LuserMe { .. } => {
            reveal_strlit(" 255 ");
        },
        ReplyView::LocalUsers { .. } => {
            reveal_strlit(" 265 ");
        },
        ReplyView::GlobalUsers { .. } => {
            reveal_strlit(" 266 ");
        },
        ReplyView::EndOfWho { .. } => {
            reveal_strlit(" 315 ");
        },
        ReplyView::ListEnd { .. } => {
            reveal_strlit(" 323 :End of /LIST");
        },
        ReplyView::ChannelModeIs { .. } => {
            reveal_strlit(" 324 ");
        },
        ReplyView::CreationTime { .. } => {
            reveal_strlit(" 329 ");
        },
        ReplyView::Topic { .. } => {
            reveal_strlit(" 332 ");
        },
        ReplyView::TopicWhoTime { .. } => {
            reveal_strlit(" 333 ");
        },
        ReplyView::Who { .. } => {
            reveal_strlit(" 352 ");
        },
        ReplyView::Nam { .. } => {
            reveal_strlit(" 353 ");
        },
        ReplyView::EndOfNames { .. } => {
            reveal_strlit(" 366 ");
        },
        ReplyView::Motd { .. } => {
            reveal_strlit(" 372 ");
        },
        ReplyView::MotdStart { .. } => {
            reveal_strlit(" 375 ");
        },
        ReplyView::EndOfMotd { .. } => {
            reveal_strlit(" 376 ");
        },
        ReplyView::Ping { .. } => {},
        ReplyView::Pong { .. } => {},
        ReplyView::Join { .. } => {},
        ReplyView::Part { .. } => {},
        ReplyView::PrivMsg { .. } => {},
        ReplyView::Quit { .. } => {},
        ReplyView::ErrNeedMoreParams { .. } => {
            reveal_strlit(" 461 ");
        },
        ReplyView::ErrNoNickGiven { .. } => {
            reveal_strlit(" 431 :No nickname given");
        },
        ReplyView::ErrNoSuchChannel { .. } => {
            reveal_strlit(" 403 ");
        },
        ReplyView::ErrNotOnChannel { .. } => {
            reveal_strlit(" 442 ");
        },
    }
    if let Some((h, code)) = numeric_of(r) {
        let p = ":"@ + h + " "@ + code + " "@;
        assert(p =~= reply_text(r).subrange(0, p.len() as int));
    }
}

/// Who among `members` is told of a part, and what.
proof fn lemma_notify_part(
    out: Map<u128, Seq<ReplyView>>,
    members: Seq<u128>,
    leaver: u128,
    client: Seq<char>,
    channel: Seq<char>,
)
    ensures
        ({
            let r = notify_part(out, members, leaver, client, channel);
            &&& forall|k: u128| #[trigger] r.contains_key(k) <==> out.contains_key(k) || (members.contains(k) && k != leaver)
            &&& forall|k: u128| members.contains(k) && k != leaver ==> #[trigger] r[k] == seq![ReplyView::Part { client, channel }]
            &&& forall|k: u128| !(members.contains(k) && k != leaver) ==> #[trigger] r[k] == out[k]
        }),
    decreases members.len(),
{
    broadcast use vstd::seq_lib::lemma_seq_contains_after_push;
    if members.len() > 0 {
        let init = members.drop_last();
        let last = members.last();
        lemma_notify_part(out, init, leaver, client, channel);
        assert(members =~= init.push(last));
        let r = notify_part(out, members, leaver, client, channel);
        let r0 = notify_part(out, init, leaver, client, channel);
        assert(r == if last != leaver { r0.insert(last, seq![ReplyView::Part { client, channel }]) } else { r0 });
        assert forall|k: u128| #[trigger] members.contains(k) <==> init.contains(k) || k == last by {}
        assert forall|k: u128| #[trigger] r.contains_key(k) <==> out.contains_key(k) || (members.contains(k) && k != leaver) by {
            assert(members.contains(k) <==> init.contains(k) || k == last);
        }
        assert forall|k: u128| members.contains(k) && k != leaver implies #[trigger] r[k] == seq![ReplyView::Part { client, channel }] by {
            assert(members.contains(k) <==> init.contains(k) || k == last);
        }
        assert forall|k: u128| !(members.contains(k) && k != leaver) implies #[trigger] r[k] == out[k] by {
            assert(members.contains(k) <==> init.contains(k) || k == last);
        }
    } else {
        assert forall|k: u128| !members.contains(k) by {}
    }
}

/// Leaving a channel one is in tells exactly every other member of it,
/// wherever they stand in the member list, that the client left; leaving
/// a channel one is not in (or that does not exist) tells no one.
pub proof fn law_part_tells_every_other_member(
    start: Map<Seq<char>, Seq<u128>>,
    ch: Seq<char>,
    client: Seq<char>,
    leaver: u128,
)
    ensures
        ({
            let out = part_scan(start, seq![ch], client, leaver).1;
            let in_channel = start.contains_key(ch) && start[ch].contains(leaver);
            &&& forall|k: u128| #[trigger] out.contains_key(k)
                <==> in_channel && start[ch].contains(k) && k != leaver
            &&& forall|k: u128| #[trigger] out.contains_key(k)
                ==> out[k] == seq![ReplyView::Part { client, channel: ch }]
        }),
{
    let list = seq![ch];
    assert(list.drop_last() =~= Seq::<Seq<char>>::empty());
    assert(list.last() == ch);
    assert(part_scan(start, Seq::<Seq<char>>::empty(), client, leaver) == (start, Map::<u128, Seq<ReplyView>>::empty()));
    if start.contains_key(ch) && start[ch].contains(leaver) {
        lemma_notify_part(Map::empty(), start[ch], leaver, client, ch);
    }
}

/// Whether `k` is the id of a connected member of `members` other than
/// `joiner`.
spec fn told_of(members: Seq<u128>, joiner: u128, connections: Map<u128, ConnectionContext>, k: u128) -> bool {
    exists|m: u128| members.contains(m) && m != joiner && connections.contains_key(m) && #[trigger] connections[m].connection_id == k
}

/// Who among `members` is told of a join, and what.
proof fn lemma_notify_join(
    out: Map<u128, Seq<ReplyView>>,
    members: Seq<u128>,
    joiner: u128,
    connections: Map<u128, ConnectionContext>,
    client: Seq<char>,
    channel: Seq<char>,
)
    ensures
        ({
            let r = notify_join(out, members, joiner, connections, client, channel);
            &&& forall|k: u128| #[trigger] r.contains_key(k) <==> out.contains_key(k) || told_of(members, joiner, connections, k)
            &&& forall|k: u128| told_of(members, joiner, connections, k) ==> #[trigger] r[k] == seq![ReplyView::Join { client, channel }]
            &&& forall|k: u128| !told_of(members, joiner, connections, k) ==> #[trigger] r[k] == out[k]
        }),
    decreases members.len(),
{
    broadcast use vstd::seq_lib::lemma_seq_contains_after_push;
    if members.len() > 0 {
        let init = members.drop_last();
        let last = members.last();
        lemma_notify_join(out, init, joiner, connections, client, channel);
        assert(members =~= init.push(last));
        assert forall|k: u128| #[trigger] told_of(members, joiner, connections, k) <==> told_of(init, joiner, connections, k)
            || (last != joiner && connections.contains_key(last) && connections[last].connection_id == k) by {
            if told_of(members, joiner, connections, k) {
                let m = choose|m: u128| members.contains(m) && m != joiner && connections.contains_key(m) && #[trigger] connections[m].connection_id == k;
                if m != last {
                    assert(init.contains(m));
                }
            }
            if told_of(init, joiner, connections, k) {
                let m = choose|m: u128| init.contains(m) && m != joiner && connections.contains_key(m) && #[trigger] connections[m].connection_id == k;
                assert(members.contains(m));
            }
            if last != joiner && connections.contains_key(last) && connections[last].connection_id == k {
                assert(members.contains(last));
            }
        }
        let r = notify_join(out, members, joiner, connections, client, channel);
        let r0 = notify_join(out, init, joiner, connections, client, channel);
        assert(r == if last != joiner && connections.contains_key(last) {
            r0.insert(connections[last].connection_id, seq![ReplyView::Join { client, channel }])
        } else {
            r0
        });
        assert forall|k: u128| #[trigger] r.contains_key(k) <==> out.contains_key(k) || told_of(members, joiner, connections, k) by {
            assert(told_of(members, joiner, connections, k) <==> told_of(init, joiner, connections, k)
                || (last != joiner && connections.contains_key(last) && connections[last].connection_id == k));
        }
        assert forall|k: u128| told_of(members, joiner, connections, k) implies #[trigger] r[k] == seq![ReplyView::Join { client, channel }] by {
            assert(told_of(members, joiner, connections, k) <==> told_of(init, joiner, connections, k)
                || (last != joiner && connections.contains_key(last) && connections[last].connection_id == k));
        }
        assert forall|k: u128| !told_of(members, joiner, connections, k) implies #[trigger] r[k] == out[k] by {
            assert(told_of(members, joiner, connections, k) <==> told_of(init, joiner, connections, k)
                || (last != joiner && connections.contains_key(last) && connections[last].connection_id == k));
        }
    } else {
        assert forall|k: u128| !told_of(members, joiner, connections, k) by {}
    }
}

/// Joining a channel tells every connected member of it other than the
/// joiner, wherever they stand in the member list, that the client
/// joined, and no one else hears of it; the joiner gets the channel's
/// greeting unless a member's record carries the joiner's id.
pub proof fn law_join_tells_every_other_member(
    start: Map<Seq<char>, Seq<u128>>,
    ch: Seq<char>,
    server_host: Seq<char>,
    nick: Seq<char>,
    client: Seq<char>,
    joiner: u128,
    connections: Map<u128, ConnectionContext>,
    now: Timestamp,
)
    ensures
        ({
            let (chans, out) = join_scan(start, seq![ch], server_host, nick, client, joiner, connections, now);
            let members = chans[ch];
            &&& forall|m: u128| members.contains(m) && m != joiner && connections.contains_key(m)
                ==> out.contains_key(#[trigger] connections[m].connection_id)
                    && out[connections[m].connection_id] == seq![ReplyView::Join { client, channel: ch }]
            &&& forall|k: u128| #[trigger] out.contains_key(k) <==> k == joiner || exists|m: u128|
                members.contains(m) && m != joiner && connections.contains_key(m) && #[trigger] connections[m].connection_id == k
            &&& (forall|m: u128| members.contains(m) && m != joiner && connections.contains_key(m)
                ==> #[trigger] connections[m].connection_id != joiner)
                ==> out[joiner] == join_replies(server_host, nick, client, ch, now, member_nicks(members, connections))
        }),
{
    let list = seq![ch];
    assert(list.drop_last() =~= Seq::<Seq<char>>::empty());
    assert(list.last() == ch);
    assert(join_scan(start, Seq::<Seq<char>>::empty(), server_host, nick, client, joiner, connections, now)
        == (start, Map::<u128, Seq<ReplyView>>::empty()));
    let members = if start.contains_key(ch) { with_member(start[ch], joiner) } else { seq![joiner] };
    let out2 = Map::<u128, Seq<ReplyView>>::empty().insert(
        joiner, join_replies(server_host, nick, client, ch, now, member_nicks(members, connections)));
    lemma_notify_join(out2, members, joiner, connections, client, ch);
    let (chans, out) = join_scan(start, seq![ch], server_host, nick, client, joiner, connections, now);
    assert(chans[ch] == members);
    assert forall|m: u128| members.contains(m) && m != joiner && connections.contains_key(m)
        implies out.contains_key(#[trigger] connections[m].connection_id)
            && out[connections[m].connection_id] == seq![ReplyView::Join { client, channel: ch }] by {
        assert(told_of(members, joiner, connections, connections[m].connection_id));
    }
    assert forall|k: u128| #[trigger] out.contains_key(k) <==> k == joiner || told_of(members, joiner, connections, k) by {}
}

/// When the mask names no channel, WHO lists exactly the connections
/// whose hostmask matches the mask: given the connections in any order
/// that holds each entry of the map, a connection is listed if and only
/// if its hostmask matches.
pub proof fn law_who_lists_exactly_the_matching(
    connections: Map<u128, ConnectionContext>,
    order: Seq<(u128, ConnectionContext)>,
    mask: Seq<char>,
)
    requires
        forall|i: int| 0 <= i < order.len() ==> connections.contains_key(#[trigger] order[i].0) && connections[order[i].0] == order[i].1,
        forall|k: u128| #[trigger] connections.contains_key(k) ==> order.contains((k, connections[k])),
    ensures
        forall|k: u128| #[trigger] mask_members(order, mask).contains(k)
            <==> connections.contains_key(k) && mask_matches(hostmask(connections[k]), mask),
{
    lemma_mask_members(order, mask);
    assert forall|k: u128| #[trigger] mask_members(order, mask).contains(k)
        <==> connections.contains_key(k) && mask_matches(hostmask(connections[k]), mask) by {
        if connections.contains_key(k) {
            assert(order.contains((k, connections[k])));
            let i = choose|i: int| 0 <= i < order.len() && order[i] == (k, connections[k]);
            assert(order[i].0 == k);
            if mask_matches(hostmask(connections[k]), mask) {
                assert(listed_at(order, mask, k));
            }
        }
        if mask_members(order, mask).contains(k) {
            let i = choose|i: int| 0 <= i < order.len() && (#[trigger] order[i]).0 == k && mask_matches(hostmask(order[i].1), mask);
            assert(connections.contains_key(order[i].0));
        }
    }
}

/// Whether some entry of `order` has the id `k` and a hostmask matching
/// `mask`.
spec fn listed_at(order: Seq<(u128, ConnectionContext)>, mask: Seq<char>, k: u128) -> bool {
    exists|i: int| 0 <= i < order.len() && (#[trigger] order[i]).0 == k && mask_matches(hostmask(order[i].1), mask)
}

/// Which ids `mask_members` keeps.
proof fn lemma_mask_members(order: Seq<(u128, ConnectionContext)>, mask: Seq<char>)
    ensures
        forall|k: u128| #[trigger] mask_members(order, mask).contains(k) <==> listed_at(order, mask, k),
    decreases order.len(),
{
    broadcast use vstd::seq_lib::lemma_seq_contains_after_push;
    if order.len() > 0 {
        let init = order.drop_last();
        let n = order.len() - 1;
        let (lk, lv) = order.last();
        lemma_mask_members(init, mask);
        let r = mask_members(order, mask);
        let r0 = mask_members(init, mask);
        assert(r == if mask_matches(hostmask(lv), mask) { r0.push(lk) } else { r0 });
        assert forall|k: u128| #[trigger] mask_members(order, mask).contains(k) <==> listed_at(order, mask, k) by {
            assert(r.contains(k) <==> r0.contains(k) || (mask_matches(hostmask(lv), mask) && lk == k));
            if listed_at(order, mask, k) {
                let i = choose|i: int| 0 <= i < order.len() && (#[trigger] order[i]).0 == k && mask_matches(hostmask(order[i].1), mask);
                if i < n {
                    assert(init[i] == order[i]);
                    assert(listed_at(init, mask, k));
                } else {
                    assert(order[i] == order.last());
                }
            }
            if listed_at(init, mask, k) {
                let i = choose|i: int| 0 <= i < init.len() && (#[trigger] init[i]).0 == k && mask_matches(hostmask(init[i].1), mask);
                assert(order[i] == init[i]);
            }
            if mask_matches(hostmask(lv), mask) && lk == k {
                assert(order[n] == order.last());
            }
        }
    }
}

/// The words of a PRIVMSG are joined as they are, each followed by one
/// space: one word gives itself and a space...
pub proof fn law_spaced_concat_one(w: Seq<char>)
    ensures
        spaced_concat(seq![w]) == w.push(' '),
{
    assert(seq![w].drop_last() =~= Seq::<Seq<char>>::empty());
    assert(seq![w].last() == w);
    assert(spaced_concat(Seq::<Seq<char>>::empty()) == Seq::<char>::empty());
    assert(Seq::<char>::empty() + w.push(' ') =~= w.push(' '));
}

/// ...and the words of two runs give the two texts one after the other.
pub proof fn law_spaced_concat_append(a: Seq<Seq<char>>, b: Seq<Seq<char>>)
    ensures
        spaced_concat(a + b) == spaced_concat(a) + spaced_concat(b),
    decreases b.len(),
{
    if b.len() == 0 {
        assert(a + b =~= a);
        assert(spaced_concat(a) + Seq::<char>::empty() =~= spaced_concat(a));
    } else {
        let b0 = b.drop_last();
        law_spaced_concat_append(a, b0);
        assert((a + b).drop_last() =~= a + b0);
        assert((a + b).last() == b.last());
        assert(spaced_concat(a) + spaced_concat(b0) + b.last().push(' ')
            =~= spaced_concat(a) + (spaced_concat(b0) + b.last().push(' ')));
    }
}

/// The welcome burst names the server's version as given: the second
/// line (002) and the fourth (004) carry it.
pub proof fn law_welcome_carries_version(h: Seq<char>, n: Seq<char>, v: Seq<char>, t: Timestamp)
    ensures
        ({
            let w = welcome_replies(h, n, v, t);
            &&& w.len() == 16
            &&& w[0] == ReplyView::Welcome { server_host: h, nick: n }
            &&& w[1] == ReplyView::YourHost { server_host: h, nick: n, version: v }
            &&& w[2] == ReplyView::Created { server_host: h, nick: n, created_at: t }
            &&& w[3] matches ReplyView::MyInfo { server_host, nick, version, .. } && server_host == h && nick == n && version == v
            &&& reply_text(w[1]) == ":"@ + h + " 002 "@ + n + " :Your host is "@ + h + ", running version "@ + v
        }),
{
    let w = welcome_replies(h, n, v, t);
    assert(reply_text(w[1]) =~= ":"@ + h + " 002 "@ + n + " :Your host is "@ + h + ", running version "@ + v);
}

} // verus!
