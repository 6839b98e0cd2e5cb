use wasm_core::plugin_helpers::{
    succeeded, ERROR_BUFFER_OVERFLOW, ERROR_ENV_PARSING, ERROR_INVALID_INPUT, ERROR_INVALID_UTF8,
    ERROR_MEMORY_ALLOCATION, ERROR_PARSE_ERROR, ERROR_UNKNOWN, SUCCESS,
};
use wasm_core::rot13::rot13_char;

#[test]
fn test_error_codes() {
    assert_eq!(ERROR_INVALID_UTF8, -1);
    assert_eq!(SUCCESS, 0);
}

#[test]
fn all_error_codes_are_negative_and_distinct() {
    let codes = [
        ERROR_INVALID_UTF8,
        ERROR_INVALID_INPUT,
        ERROR_BUFFER_OVERFLOW,
        ERROR_MEMORY_ALLOCATION,
        ERROR_PARSE_ERROR,
        ERROR_ENV_PARSING,
        ERROR_UNKNOWN,
    ];
    assert_eq!(codes, [-1, -2, -3, -4, -5, -6, -99]);
    for code in codes {
        assert!(!succeeded(code));
    }
    assert!(succeeded(SUCCESS));
}

#[test]
fn rot13_moves_letters_only() {
    assert_eq!(rot13_char('A'), 'N');
    assert_eq!(rot13_char('M'), 'Z');
    assert_eq!(rot13_char('N'), 'A');
    assert_eq!(rot13_char('Z'), 'M');
    assert_eq!(rot13_char('a'), 'n');
    assert_eq!(rot13_char('m'), 'z');
    assert_eq!(rot13_char('n'), 'a');
    assert_eq!(rot13_char('z'), 'm');
    assert_eq!(rot13_char('5'), '5');
    assert_eq!(rot13_char(' '), ' ');
    assert_eq!(rot13_char('é'), 'é');
    assert_eq!(rot13_char('@'), '@');
    assert_eq!(rot13_char('['), '[');
    assert_eq!(rot13_char('`'), '`');
    assert_eq!(rot13_char('{'), '{');
}

#[test]
fn rot13_twice_is_identity() {
    for n in 0u32..0x3000 {
        if let Some(c) = char::from_u32(n) {
            assert_eq!(rot13_char(rot13_char(c)), c);
        }
    }
    let word: String = "Hello, World!".chars().map(rot13_char).collect();
    assert_eq!(word, "Uryyb, Jbeyq!");
}
