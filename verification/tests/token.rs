use onlinerpg::token::{
    generated_token, is_long_enough, load_or_create_npc_token, token_in_file, MIN_NPC_TOKEN_LEN,
};

#[test]
fn a_generated_token_is_the_number_in_hexadecimal() {
    assert_eq!(
        generated_token(0x0123_4567_89ab_4def_8123_4567_89ab_cdef),
        "0123456789ab4def8123456789abcdef"
    );
    assert_eq!(generated_token(0), "00000000000000000000000000000000");
    assert_eq!(
        generated_token(u128::MAX),
        "ffffffffffffffffffffffffffffffff"
    );
}

#[test]
fn a_stored_token_is_kept() {
    let kept = load_or_create_npc_token(Some("  a-long-enough-token\n".to_string()));
    assert_eq!(kept.token, "a-long-enough-token");
    assert!(!kept.created);
    assert_eq!(
        token_in_file(&Some("\u{3000}t\u{a0}".to_string())),
        Some("t".to_string())
    );
}

#[test]
fn a_missing_or_blank_file_gets_a_random_token() {
    for contents in [None, Some(String::new()), Some(" \n\t".to_string())] {
        assert_eq!(token_in_file(&contents), None);
        let made = load_or_create_npc_token(contents);
        assert!(made.created);
        assert_eq!(made.token.len(), 32);
        assert!(made
            .token
            .chars()
            .all(|c| c.is_ascii_digit() || ('a'..='f').contains(&c)));
        assert_eq!(made.token.as_bytes()[12], b'4');
        assert!(b"89ab".contains(&made.token.as_bytes()[16]));
    }
    let one = load_or_create_npc_token(None).token;
    let other = load_or_create_npc_token(None).token;
    assert_ne!(one, other);
}

#[test]
fn a_generated_token_serves_and_reads_back() {
    let made = load_or_create_npc_token(None);
    assert!(is_long_enough(&made.token));
    assert_eq!(token_in_file(&Some(made.token.clone())), Some(made.token));
}

#[test]
fn a_stored_token_survives_restarts() {
    let first = load_or_create_npc_token(Some("\t a token with spaces \n".to_string()));
    assert_eq!(first.token, "a token with spaces");
    let second = load_or_create_npc_token(Some(first.token));
    assert_eq!(second.token, "a token with spaces");
    assert!(!second.created);
}

#[test]
fn short_tokens_are_told_apart_in_bytes() {
    assert_eq!(MIN_NPC_TOKEN_LEN, 16);
    assert!(is_long_enough("0123456789abcdef"));
    assert!(!is_long_enough("0123456789abcde"));
    assert!(!is_long_enough("  0123456789abcde  "));
    assert!(is_long_enough("\u{e9}\u{e9}\u{e9}\u{e9}\u{e9}\u{e9}\u{e9}\u{e9}"));
}
