use droidbridge::json::{
    array, canonicalize, entry, integer_value, json_text, object, pretty_text, text_array,
    text_value, Json,
};

fn read(text: &str) -> Json {
    Json::parse(text.as_bytes()).expect("a value")
}

#[test]
fn a_text_reads_as_the_value_that_it_spells() {
    let value = read(r#" {"b":[1,-2,null,true,"x\n\"é"],"a":{"c":1.5}} "#);
    assert_eq!(value.member_count(), Some(2));
    match value.get("b") {
        Some(Json::Array(items)) => {
            assert_eq!(items.len(), 5);
            assert_eq!(items[0], Json::Unsigned(1));
            assert_eq!(items[1], Json::Number("-2".to_owned()));
            assert_eq!(items[2], Json::Null);
            assert_eq!(items[3], Json::Boolean(true));
            assert_eq!(items[4].as_text(), Some("x\n\"\u{e9}"));
        }
        _ => panic!("an array"),
    }
    assert!(value.get("c").is_none());
    assert!(Json::parse(b"{").is_none());
    assert!(Json::parse(b"").is_none());
    assert!(Json::parse(b"1 2").is_none());
    assert!(Json::parse(&[0xff]).is_none());
}

#[test]
fn members_are_written_in_canonical_order() {
    let value = object(vec![
        entry("b", Json::Unsigned(2)),
        entry("a", object(vec![entry("d", Json::Null), entry("c", Json::Boolean(false))])),
    ]);
    assert_eq!(json_text(&value), r#"{"b":2,"a":{"d":null,"c":false}}"#);
    let canonical = canonicalize(&value);
    assert_eq!(json_text(&canonical), r#"{"a":{"c":false,"d":null},"b":2}"#);
    assert_eq!(canonicalize(&canonical), canonical);
}

#[test]
fn what_is_written_reads_back() {
    let value = object(vec![
        entry("items", array(vec![integer_value(-7), integer_value(7), text_value("\u{1}\\/")])),
        entry("texts", text_array(&["a".to_owned(), "b".to_owned()])),
    ]);
    let text = json_text(&value);
    assert_eq!(text, r#"{"items":[-7,7,"\u0001\\/"],"texts":["a","b"]}"#);
    assert!(read(&text).same_as(&value));
    assert!(!read(r#"{"items":[]}"#).same_as(&value));
}

#[test]
fn a_value_is_laid_out_as_the_other_readers_of_it_expect() {
    for text in [
        r#"{"a":[],"b":{},"c":[1,[2,{"d":null}]],"e":"x"}"#,
        r#"[]"#,
        r#"{"k":-3,"l":[true,false]}"#,
        r#""only a text""#,
    ] {
        let expected: serde_json::Value = serde_json::from_str(text).unwrap();
        assert_eq!(
            pretty_text(&read(text), ""),
            serde_json::to_string_pretty(&expected).unwrap()
        );
        assert_eq!(json_text(&read(text)), serde_json::to_string(&expected).unwrap());
    }
    assert_eq!(pretty_text(&read("[1]"), "  "), "[\n    1\n  ]");
}

#[test]
fn a_string_is_quoted_and_escaped() {
    let text = |value: &str| json_text(&Json::Text(value.to_owned()));
    assert_eq!(text(""), r#""""#);
    assert_eq!(text("plain / \u{e9}\u{7f}\u{1f600}"), "\"plain / \u{e9}\u{7f}\u{1f600}\"");
    assert_eq!(text("a\"b\\c"), r#""a\"b\\c""#);
    assert_eq!(text("\u{8}\t\n\u{c}\r"), r#""\b\t\n\f\r""#);
    assert_eq!(text("\u{0}\u{b}\u{1f} "), r#""\u0000\u000b\u001f ""#);
}
