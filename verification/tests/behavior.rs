use catj::engine::parse;

fn run(input: &str) -> String {
    let mut out: Vec<u8> = Vec::new();
    parse(input.as_bytes(), &mut out).unwrap();
    String::from_utf8(out).expect("bad utf8").trim().to_owned()
}

fn raw(input: &str) -> Vec<u8> {
    let mut out: Vec<u8> = Vec::new();
    parse(input.as_bytes(), &mut out).unwrap();
    out
}

#[test]
fn scalars_in_array() {
    assert_eq!("[0] = true\n[1] = false\n[2] = null", run("[true, false, null]"));
}

#[test]
fn numbers_kept_verbatim() {
    assert_eq!(
        "[0] = 1\n[1] = 2.50e3\n[2] = -0\n[3] = 1E-2",
        run("[1, 2.50e3, -0, 1E-2]")
    );
}

#[test]
fn nested_paths() {
    assert_eq!(".a.b[0] = 1\n.a.c = {}", run(r#"{"a": {"b": [1], "c": {}}}"#));
}

#[test]
fn empty_containers_as_members() {
    assert_eq!(".a = []\n.b = {}", run(r#"{"a": [], "b": {}}"#));
}

#[test]
fn empty_key_prints_bare() {
    assert_eq!(". = 1", run(r#"{"": 1}"#));
}

#[test]
fn underscored_key_is_bare() {
    assert_eq!(".a_1 = true", run(r#"{"a_1": true}"#));
}

#[test]
fn control_chars_reescaped() {
    assert_eq!("[0] = \"\\u0001\\u001f\"", run(r#"["\u0001\u001f"]"#));
}

#[test]
fn simple_escapes_decode() {
    assert_eq!("[0] = \"\\\"\\\\/\\t\\f\"", run(r#"["\"\\\/\t\f"]"#));
}

#[test]
fn bmp_unicode_escapes_resolve() {
    assert_eq!("[0] = \"A\u{e9}\u{20ac}\"", run(r#"["\u0041\u00e9\u20ac"]"#));
}

#[test]
fn compact_document() {
    assert_eq!(".k = \"v\"", run(r#"{"k":"v"}"#));
}

#[test]
fn concatenated_top_level_values() {
    assert_eq!(raw("{} {\"a\": 1}"), b"\n.a = 1\n\n".to_vec());
}

#[test]
fn top_level_scalar_prints_nothing() {
    assert_eq!(raw("17 "), b"\n".to_vec());
}

#[test]
fn array_index_advances_past_containers() {
    assert_eq!("[0] = 1\n[2] = 2", run("[1, [], 2]"));
}

#[test]
fn whitespace_everywhere() {
    assert_eq!(".k = \"v\"", run(" \t\r\n{ \"k\" \n: \"v\" }\n"));
}

#[test]
fn deep_nesting() {
    assert_eq!("[0][0][0].x = 9", run(r#"[[[{"x": 9}]]]"#));
}
