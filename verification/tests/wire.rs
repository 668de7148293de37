use bareos_mcp::json::{member, Json};
use bareos_mcp::wire::{read_line, write_line};

fn number(text: &str) -> Json {
    Json::Number(text.to_string())
}

#[test]
fn scalars_are_read_as_they_stand() {
    assert_eq!(read_line("null"), Some(Json::Null));
    assert_eq!(read_line("true"), Some(Json::Bool(true)));
    assert_eq!(read_line("false"), Some(Json::Bool(false)));
    assert_eq!(read_line(r#""abc""#), Some(Json::text("abc")));
    assert_eq!(read_line(r#""""#), Some(Json::text("")));
    assert_eq!(read_line("  7  "), Some(number("7")));
}

#[test]
fn a_number_is_read_as_its_text() {
    assert_eq!(read_line("24"), Some(number("24")));
    assert_eq!(read_line("0"), Some(number("0")));
    assert_eq!(read_line("-3"), Some(number("-3")));
    assert_eq!(read_line("1.5"), Some(number("1.5")));
    assert_eq!(read_line("18446744073709551615"), Some(number("18446744073709551615")));
    assert_eq!(read_line("-9223372036854775808"), Some(number("-9223372036854775808")));
}

#[test]
fn a_number_that_is_no_unsigned_integer_is_not_read_as_one() {
    for text in ["-3", "1.5", "7.0", "1e2", "-0", "18446744073709551616"] {
        let value: serde_json::Value = serde_json::from_str(text).unwrap();
        assert_eq!(value.as_u64(), None);
        assert_eq!(read_line(text).unwrap().as_u64(), None);
    }
    for text in ["0", "7", "4294967296", "18446744073709551615"] {
        let value: serde_json::Value = serde_json::from_str(text).unwrap();
        assert_eq!(read_line(text).unwrap().as_u64(), value.as_u64());
        assert!(value.as_u64().is_some());
    }
}

#[test]
fn escapes_are_resolved_on_reading() {
    assert_eq!(read_line(r#""a\"b\\c\né""#), Some(Json::text("a\"b\\c\n\u{e9}")));
}

#[test]
fn arrays_keep_their_order() {
    assert_eq!(
        read_line(r#"[3, "b", null, [true]]"#),
        Some(Json::Array(vec![
            number("3"),
            Json::text("b"),
            Json::Null,
            Json::Array(vec![Json::Bool(true)]),
        ]))
    );
    assert_eq!(read_line("[]"), Some(Json::Array(Vec::new())));
}

#[test]
fn objects_hold_each_key_once() {
    assert_eq!(
        read_line(r#"{"b": 1, "a": {"c": null}, "b": 2}"#),
        Some(Json::Object(vec![
            member("a", Json::Object(vec![member("c", Json::Null)])),
            member("b", number("2")),
        ]))
    );
    assert_eq!(read_line("{}"), Some(Json::Object(Vec::new())));
}

#[test]
fn what_is_no_json_is_not_read() {
    assert_eq!(read_line(""), None);
    assert_eq!(read_line("   "), None);
    assert_eq!(read_line("not json"), None);
    assert_eq!(read_line("{"), None);
    assert_eq!(read_line(r#"{"a":1,}"#), None);
    assert_eq!(read_line(r#"{"a":1} x"#), None);
    assert_eq!(read_line("{'a':1}"), None);
    assert_eq!(read_line("NaN"), None);
    assert_eq!(read_line("01"), None);
}

#[test]
fn values_are_written_compactly() {
    assert_eq!(write_line(&Json::Null).as_deref(), Some("null"));
    assert_eq!(write_line(&Json::Bool(true)).as_deref(), Some("true"));
    assert_eq!(write_line(&number("-32601")).as_deref(), Some("-32601"));
    assert_eq!(write_line(&number("1.5")).as_deref(), Some("1.5"));
    assert_eq!(write_line(&Json::text("abc")).as_deref(), Some(r#""abc""#));
    assert_eq!(
        write_line(&Json::Array(vec![number("1"), Json::Null])).as_deref(),
        Some("[1,null]")
    );
}

#[test]
fn a_written_line_holds_no_line_break() {
    let line = write_line(&Json::text("a\nb\r\"c\"\\\t")).unwrap();
    assert_eq!(line, r#""a\nb\r\"c\"\\\t""#);
    assert!(!line.contains('\n'));
}

#[test]
fn members_are_written_by_key_and_once() {
    let object = Json::Object(vec![
        member("b", number("1")),
        member("a", Json::text("x")),
        member("b", number("2")),
    ]);
    assert_eq!(write_line(&object).as_deref(), Some(r#"{"a":"x","b":2}"#));
    assert_eq!(object.get("b"), Some(&number("2")));
}

#[test]
fn a_number_that_cannot_be_read_cannot_be_written() {
    assert_eq!(write_line(&number("abc")), None);
    assert_eq!(write_line(&number("")), None);
    assert_eq!(write_line(&Json::Array(vec![Json::Null, number("1.")])), None);
    assert_eq!(write_line(&Json::Object(vec![member("n", number("0x10"))])), None);
}

#[test]
fn reading_back_what_was_written_gives_the_value() {
    for text in [
        r#"{"id":1,"jsonrpc":"2.0","method":"tools/list"}"#,
        r#"[1,-2,3.5,"x",null,true,{"a":[]}]"#,
        r#""é\n""#,
        "18446744073709551615",
    ] {
        let value = read_line(text).unwrap();
        let line = write_line(&value).unwrap();
        assert_eq!(read_line(&line), Some(value));
    }
}
