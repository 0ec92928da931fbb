use catj::engine::parse;
use catj::value::JsonError;

fn fail(input: &[u8]) -> (u64, u64, JsonError) {
    let mut out: Vec<u8> = Vec::new();
    parse(input, &mut out).unwrap_err()
}

#[test]
fn truncated_object() {
    let (line, col, e) = fail(b"{");
    assert!(matches!(e, JsonError::Truncated));
    assert_eq!((line, col), (1, 1));
}

#[test]
fn truncated_mid_string() {
    let (line, col, e) = fail(b"{\"a");
    assert!(matches!(e, JsonError::Truncated));
    assert_eq!((line, col), (1, 3));
}

#[test]
fn truncated_after_member() {
    let (_, _, e) = fail(b"{\"a\": 1,");
    assert!(matches!(e, JsonError::Truncated));
}

#[test]
fn truncated_array() {
    let (_, _, e) = fail(b"[1,");
    assert!(matches!(e, JsonError::Truncated));
}

#[test]
fn syntax_error_bad_start() {
    let (line, col, e) = fail(b"]");
    assert!(matches!(e, JsonError::Syntax));
    assert_eq!((line, col), (1, 1));
}

#[test]
fn syntax_error_trailing_garbage() {
    let (_, _, e) = fail(b"{} !");
    assert!(matches!(e, JsonError::Syntax));
}

#[test]
fn syntax_error_leading_zero() {
    let (_, _, e) = fail(b"[01]");
    assert!(matches!(e, JsonError::Syntax));
}

#[test]
fn position_counts_newlines() {
    let (line, col, e) = fail(b"{\n  !");
    assert!(matches!(e, JsonError::Syntax));
    assert_eq!((line, col), (2, 3));
}

#[test]
fn unknown_simple_escape() {
    let (_, _, e) = fail(b"[\"\\q\"]");
    match e {
        JsonError::InvalidEscape(frag) => assert_eq!(frag, b"\\q".to_vec()),
        _ => panic!("expected InvalidEscape"),
    }
}

#[test]
fn non_hex_digit_in_unicode_escape() {
    let (_, _, e) = fail(b"[\"\\u12g4\"]");
    match e {
        JsonError::InvalidEscape(frag) => assert_eq!(frag, b"g".to_vec()),
        _ => panic!("expected InvalidEscape"),
    }
}

#[test]
fn unpaired_high_surrogate() {
    let (_, _, e) = fail(b"[\"\\ud800\\u0041\"]");
    match e {
        JsonError::InvalidEscape(frag) => assert_eq!(frag, b"\\u0041".to_vec()),
        _ => panic!("expected InvalidEscape"),
    }
}

#[test]
fn lone_low_surrogate() {
    let (_, _, e) = fail(b"[\"\\udc00\"]");
    match e {
        JsonError::InvalidEscape(frag) => assert_eq!(frag, b"\\udc00".to_vec()),
        _ => panic!("expected InvalidEscape"),
    }
}

#[test]
fn dangling_surrogate_before_plain_byte() {
    let (_, _, e) = fail(b"[\"\\ud83dx\"]");
    match e {
        JsonError::InvalidEscape(frag) => assert_eq!(frag, b"d83d".to_vec()),
        _ => panic!("expected InvalidEscape"),
    }
}

#[test]
fn invalid_utf8_in_string() {
    let (_, _, e) = fail(b"[\"\xff\"]");
    assert!(matches!(e, JsonError::Unicode));
}

#[test]
fn overlong_utf8_rejected() {
    // 0xC0 0xAF is an overlong encoding of '/'.
    let (_, _, e) = fail(b"[\"\xc0\xaf\"]");
    assert!(matches!(e, JsonError::Unicode));
}

#[test]
fn bare_minus_is_rejected() {
    let (_, _, e) = fail(b"[-]");
    assert!(matches!(e, JsonError::Syntax));
}

#[test]
fn every_truncation_avoids_syntax_errors() {
    // No number or keyword literals in this document, so every proper
    // prefix must either parse or report Truncated — never Syntax.
    let doc = r#"{"a": ["x", {"b c": "d😊e"}], "f": {}}"#.as_bytes();
    for cut in 0..doc.len() {
        let mut out: Vec<u8> = Vec::new();
        match parse(&doc[..cut], &mut out) {
            Ok(()) => {}
            Err((_, _, e)) => assert!(
                matches!(e, JsonError::Truncated | JsonError::InvalidEscape(_)),
                "prefix of length {cut} gave {e:?}"
            ),
        }
    }
}

#[test]
fn truncated_keyword_is_syntax_error() {
    // End of input inside a keyword: the synthetic end byte finds no valid
    // transition.
    let (_, _, e) = fail(b"tru");
    assert!(matches!(e, JsonError::Syntax));
}
