use rust_irc::util::{glob_to_regex, match_mask};

#[test]
fn match_mask_prefix_matches_no_wildcard_no_match() {
    assert_eq!(false, match_mask("nick!username@host", "nick"));
}

#[test]
fn match_mask_single_char_wildcard_multi_char_mask_no_match() {
    assert_eq!(false, match_mask("nick!username@host", "?"));
}

#[test]
fn match_mask_wildcard_matches() {
    assert_eq!(true, match_mask("nick!username@host", "*"));
}

#[test]
fn match_mask_prefix_with_wildcard_matches() {
    assert_eq!(true, match_mask("nick!username@host", "nick*"));
}

#[test]
fn glob_to_regex_translates_wildcards() {
    assert_eq!("^a.*b.c$", glob_to_regex("a*b?c"));
    assert_eq!("^$", glob_to_regex(""));
}

#[test]
fn match_mask_single_char_wildcard_matches_one_char() {
    assert!(match_mask("ab", "a?"));
    assert!(!match_mask("abc", "a?"));
}

#[test]
fn match_mask_invalid_regex_matches_nothing() {
    assert!(!match_mask("(", "("));
}
