//! Splitting and trimming text the way the protocol reads it: words
//! separated by whitespace, comma separated lists, and trimmed ends.

use vstd::prelude::*;
use vstd::string::StringExecFns;
use crate::text::{push_char, chars_of};

verus! {

/// The views of a sequence of strings.
pub open spec fn views(v: Seq<String>) -> Seq<Seq<char>> {
    v.map_values(|x: String| x@)
}

/// Whether `a` and `b` hold the same characters.
pub(crate) fn str_eq(a: &str, b: &str) -> (r: bool)
    ensures
        r == (a@ == b@),
{
    let va = chars_of(a);
    let vb = chars_of(b);
    if va.len() != vb.len() {
        return false;
    }
    let mut i: usize = 0;
    while i < va.len()
        invariant
            va@ == a@,
            vb@ == b@,
            va.len() == vb.len(),
            i <= va.len(),
            forall|j: int| 0 <= j < i ==> va@[j] == vb@[j],
        decreases va.len() - i,
    {
        if va[i] != vb[i] {
            return false;
        }
        i = i + 1;
    }
    assert(a@ =~= b@);
    true
}

/// Unicode white space, as `char::is_whitespace` classifies it.
pub open spec fn is_ws(c: char) -> bool {
    let u = c as u32;
    ||| 0x9 <= u <= 0xd
    ||| u == 0x20
    ||| u == 0x85
    ||| u == 0xa0
    ||| u == 0x1680
    ||| 0x2000 <= u <= 0x200a
    ||| u == 0x2028
    ||| u == 0x2029
    ||| u == 0x202f
    ||| u == 0x205f
    ||| u == 0x3000
}

/// Decides `is_ws`.
pub fn is_whitespace(c: char) -> (b: bool)
    ensures
        b == is_ws(c),
{
    let u = c as u32;
    (0x9 <= u && u <= 0xd) || u == 0x20 || u == 0x85 || u == 0xa0 || u == 0x1680
        || (0x2000 <= u && u <= 0x200a) || u == 0x2028 || u == 0x2029 || u == 0x202f
        || u == 0x205f || u == 0x3000
}

/// Scanning `s` from the left: the words completed so far and the word
/// being read.
pub open spec fn words_scan(s: Seq<char>) -> (Seq<Seq<char>>, Seq<char>)
    decreases s.len(),
{
    if s.len() == 0 {
        (seq![], seq![])
    } else {
        let (done, cur) = words_scan(s.drop_last());
        let c = s.last();
        if is_ws(c) {
            if cur.len() > 0 {
                (done.push(cur), seq![])
            } else {
                (done, cur)
            }
        } else {
            (done, cur.push(c))
        }
    }
}

/// The maximal runs of non-whitespace characters of `s`, in order.
pub open spec fn words(s: Seq<char>) -> Seq<Seq<char>> {
    let (done, cur) = words_scan(s);
    if cur.len() > 0 {
        done.push(cur)
    } else {
        done
    }
}

/// Splits `s` into its whitespace separated words (`str::split_whitespace`).
pub fn split_whitespace(s: &str) -> (w: Vec<String>)
    ensures
        views(w@) == words(s@),
{
    let mut done: Vec<String> = Vec::new();
    let mut cur = String::new();
    for c in it: s.chars()
        invariant
            it.seq() == s@,
            views(done@) == words_scan(s@.take(it.index() as int)).0,
            cur@ == words_scan(s@.take(it.index() as int)).1,
    {
        let ghost i = it.index() as int;
        assert(s@.take(i + 1).drop_last() =~= s@.take(i));
        if is_whitespace(c) {
            if !cur.as_str().is_empty() {
                let finished = cur;
                cur = String::new();
                proof {
                    assert(views(done@.push(finished)) =~= views(done@).push(finished@));
                }
                done.push(finished);
            }
        } else {
            push_char(&mut cur, c);
        }
    }
    assert(s@.take(s@.len() as int) =~= s@);
    if !cur.as_str().is_empty() {
        proof {
            assert(views(done@.push(cur)) =~= views(done@).push(cur@));
        }
        done.push(cur);
    }
    done
}

/// How many `':'` characters `s` starts with.
pub open spec fn colon_prefix_len(s: Seq<char>) -> nat
    decreases s.len(),
{
    if s.len() > 0 && s[0] == ':' {
        1 + colon_prefix_len(s.drop_first())
    } else {
        0
    }
}

/// `s` without its leading `':'` characters (`str::trim_start_matches(':')`).
pub open spec fn trim_start_colons(s: Seq<char>) -> Seq<char> {
    s.skip(colon_prefix_len(s) as int)
}

proof fn lemma_colon_prefix_len(s: Seq<char>, k: int)
    requires
        0 <= k <= s.len(),
        forall|j: int| 0 <= j < k ==> s[j] == ':',
        k == s.len() || s[k] != ':',
    ensures
        colon_prefix_len(s) == k,
    decreases k,
{
    if k > 0 {
        lemma_colon_prefix_len(s.drop_first(), k - 1);
    }
}

/// Removes the leading `':'` characters of `s`.
pub fn trim_start_colons_of(s: &str) -> (r: String)
    ensures
        r@ == trim_start_colons(s@),
{
    let mut out = String::new();
    let mut trimming = true;
    let ghost mut k: int = 0;
    for c in it: s.chars()
        invariant
            it.seq() == s@,
            0 <= k <= it.index(),
            forall|j: int| 0 <= j < k ==> s@[j] == ':',
            trimming ==> k == it.index() && out@.len() == 0,
            !trimming ==> k < it.index() && s@[k] != ':' && out@ == s@.take(it.index() as int).skip(k),
    {
        let ghost i = it.index() as int;
        if trimming && c == ':' {
            proof {
                k = k + 1;
            }
        } else {
            trimming = false;
            push_char(&mut out, c);
            assert(out@ =~= s@.take(i + 1).skip(k));
        }
    }
    proof {
        lemma_colon_prefix_len(s@, k);
        assert(s@.take(s@.len() as int) =~= s@);
        if trimming {
            assert(s@.skip(k) =~= Seq::<char>::empty());
        }
    }
    out
}

/// `s` without its trailing whitespace (`str::trim_end`).
pub open spec fn trim_end(s: Seq<char>) -> Seq<char>
    decreases s.len(),
{
    if s.len() > 0 && is_ws(s.last()) {
        trim_end(s.drop_last())
    } else {
        s
    }
}

proof fn lemma_trim_end_white_tail(out: Seq<char>, pend: Seq<char>)
    requires
        forall|j: int| 0 <= j < pend.len() ==> is_ws(#[trigger] pend[j]),
        out.len() == 0 || !is_ws(out.last()),
    ensures
        trim_end(out + pend) == out,
    decreases pend.len(),
{
    if pend.len() == 0 {
        assert(out + pend =~= out);
    } else {
        assert((out + pend).drop_last() =~= out + pend.drop_last());
        assert(is_ws(pend[pend.len() - 1]));
        lemma_trim_end_white_tail(out, pend.drop_last());
    }
}

/// Removes the trailing whitespace of `s`.
pub fn trim_end_of(s: &str) -> (r: String)
    ensures
        r@ == trim_end(s@),
{
    let mut out = String::new();
    let mut pend = String::new();
    for c in it: s.chars()
        invariant
            it.seq() == s@,
            out@ + pend@ == s@.take(it.index() as int),
            forall|j: int| 0 <= j < pend@.len() ==> is_ws(#[trigger] pend@[j]),
            out@.len() == 0 || !is_ws(out@.last()),
    {
        let ghost i = it.index() as int;
        if is_whitespace(c) {
            let ghost before = out@ + pend@;
            push_char(&mut pend, c);
            assert(s@.take(i + 1) =~= before.push(c));
            assert(out@ + pend@ =~= s@.take(i + 1));
        } else {
            let ghost before = out@ + pend@;
            out.append(pend.as_str());
            assert(out@ == before);
            pend = String::new();
            push_char(&mut out, c);
            assert(s@.take(i + 1) =~= before.push(c));
            assert(out@ + pend@ =~= s@.take(i + 1));
        }
    }
    proof {
        assert(s@.take(s@.len() as int) =~= s@);
        lemma_trim_end_white_tail(out@, pend@);
    }
    out
}

/// Scanning `s` from the left for `sep`: the pieces completed so far and
/// the piece being read.
pub open spec fn split_scan(s: Seq<char>, sep: char) -> (Seq<Seq<char>>, Seq<char>)
    decreases s.len(),
{
    if s.len() == 0 {
        (seq![], seq![])
    } else {
        let (done, cur) = split_scan(s.drop_last(), sep);
        let c = s.last();
        if c == sep {
            (done.push(cur), seq![])
        } else {
            (done, cur.push(c))
        }
    }
}

/// The pieces of `s` between occurrences of `sep`, empty pieces included
/// (`str::split(sep)`).
pub open spec fn split_on(s: Seq<char>, sep: char) -> Seq<Seq<char>> {
    let (done, cur) = split_scan(s, sep);
    done.push(cur)
}

/// Splits `s` at every `sep`.
pub fn split_char(s: &str, sep: char) -> (w: Vec<String>)
    ensures
        views(w@) == split_on(s@, sep),
{
    let mut done: Vec<String> = Vec::new();
    let mut cur = String::new();
    for c in it: s.chars()
        invariant
            it.seq() == s@,
            views(done@) == split_scan(s@.take(it.index() as int), sep).0,
            cur@ == split_scan(s@.take(it.index() as int), sep).1,
    {
        let ghost i = it.index() as int;
        assert(s@.take(i + 1).drop_last() =~= s@.take(i));
        if c == sep {
            let finished = cur;
            cur = String::new();
            proof {
                assert(views(done@.push(finished)) =~= views(done@).push(finished@));
            }
            done.push(finished);
        } else {
            push_char(&mut cur, c);
        }
    }
    assert(s@.take(s@.len() as int) =~= s@);
    proof {
        assert(views(done@.push(cur)) =~= views(done@).push(cur@));
    }
    done.push(cur);
    done
}

} // verus!
