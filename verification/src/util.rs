//! Matching hostmasks against wildcard masks, where `*` stands for any
//! run of characters and `?` for any single character.

use vstd::prelude::*;
use vstd::string::StringExecFns;
use crate::text::push_char;
use regex::Regex;

verus! {

#[verifier::external_type_specification]
#[verifier::external_body]
pub struct ExRegex(Regex);

/// Whether `Regex::new(pattern)` succeeds.
pub uninterp spec fn regex_compiles(pattern: Seq<char>) -> bool;

/// What `is_match(haystack)` answers on the regex compiled from `pattern`.
pub uninterp spec fn regex_finds(pattern: Seq<char>, haystack: Seq<char>) -> bool;

/// A compiled regular expression together with the pattern it came from.
pub struct CompiledPattern {
    re: Regex,
    source: Ghost<Seq<char>>,
}

impl CompiledPattern {
    /// The pattern the regex was compiled from.
    pub closed spec fn pattern(&self) -> Seq<char> {
        self.source@
    }
}

/// `Regex::new`: compiles `pattern`, or fails on a pattern the regex
/// syntax rejects (or one too large to compile).
#[verifier::external_body]
fn compile(pattern: &str) -> (r: Option<CompiledPattern>)
    ensures
        r is Some <==> regex_compiles(pattern@),
        r matches Some(c) ==> c.pattern() == pattern@,
{
    match Regex::new(pattern) {
        Ok(re) => Some(CompiledPattern { re, source: Ghost(pattern@) }),
        Err(_) => None,
    }
}

/// `Regex::is_match`: whether the regex matches somewhere in `haystack`.
#[verifier::external_body]
fn is_match(c: &CompiledPattern, haystack: &str) -> (b: bool)
    ensures
        b == regex_finds(c.pattern(), haystack@),
{
    c.re.is_match(haystack)
}

/// The regex text for one mask character.
pub open spec fn glob_piece(c: char) -> Seq<char> {
    if c == '*' {
        seq!['.', '*']
    } else if c == '?' {
        seq!['.']
    } else {
        seq![c]
    }
}

/// The regex text for a mask: each `*` becomes `.*`, each `?` becomes
/// `.`, every other character stays.
pub open spec fn glob_body(mask: Seq<char>) -> Seq<char>
    decreases mask.len(),
{
    if mask.len() == 0 {
        seq![]
    } else {
        glob_body(mask.drop_last()) + glob_piece(mask.last())
    }
}

/// The anchored regex for a mask.
pub open spec fn glob_pattern(mask: Seq<char>) -> Seq<char> {
    seq!['^'] + glob_body(mask) + seq!['$']
}

/// Whether `input` matches `mask`; a mask whose regex does not compile
/// matches nothing.
pub open spec fn mask_matches(input: Seq<char>, mask: Seq<char>) -> bool {
    regex_compiles(glob_pattern(mask)) && regex_finds(glob_pattern(mask), input)
}

/// Builds the anchored regex for `mask`.
pub fn glob_to_regex(mask: &str) -> (r: String)
    ensures
        r@ == glob_pattern(mask@),
{
    let mut r = String::new();
    push_char(&mut r, '^');
    let ghost start = r@;
    for c in it: mask.chars()
        invariant
            it.seq() == mask@,
            start == seq!['^'],
            r@ == start + glob_body(mask@.take(it.index() as int)),
    {
        let ghost i = it.index() as int;
        let ghost before = r@;
        assert(mask@.take(i + 1).drop_last() =~= mask@.take(i));
        if c == '*' {
            push_char(&mut r, '.');
            push_char(&mut r, '*');
        } else if c == '?' {
            push_char(&mut r, '.');
        } else {
            push_char(&mut r, c);
        }
        assert(r@ =~= before + glob_piece(c));
        assert(r@ =~= start + glob_body(mask@.take(i + 1)));
    }
    assert(mask@.take(mask@.len() as int) =~= mask@);
    push_char(&mut r, '$');
    assert(r@ =~= glob_pattern(mask@));
    r
}

/// Whether `input` matches the wildcard `mask` as a whole.
pub fn match_mask(input: &str, mask: &str) -> (b: bool)
    ensures
        b == mask_matches(input@, mask@),
{
    let pattern = glob_to_regex(mask);
    match compile(pattern.as_str()) {
        Some(re) => is_match(&re, input),
        None => false,
    }
}

} // verus!
