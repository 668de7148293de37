use bareos_mcp::json::{member, Json};

fn sample() -> Json {
    Json::Object(vec![
        member("name", Json::text("first")),
        member("count", Json::Number("3".to_string())),
        member("name", Json::text("second")),
        member("on", Json::Bool(true)),
        member("none", Json::Null),
    ])
}

#[test]
fn get_finds_a_member_by_its_key() {
    let object = sample();
    assert_eq!(object.get("count"), Some(&Json::Number("3".to_string())));
    assert_eq!(object.get("on"), Some(&Json::Bool(true)));
    assert_eq!(object.get("none"), Some(&Json::Null));
    assert_eq!(object.get("missing"), None);
    assert_eq!(object.get(""), None);
}

#[test]
fn a_later_member_replaces_an_earlier_one() {
    assert_eq!(sample().get("name"), Some(&Json::text("second")));
}

#[test]
fn only_an_object_has_members() {
    assert_eq!(Json::Null.get("name"), None);
    assert_eq!(Json::text("name").get("name"), None);
    assert_eq!(Json::Array(vec![sample()]).get("name"), None);
    assert_eq!(Json::Object(Vec::new()).get("name"), None);
}

#[test]
fn as_str_reads_strings_only() {
    assert_eq!(Json::text("abc").as_str(), Some("abc"));
    assert_eq!(Json::text("").as_str(), Some(""));
    assert_eq!(Json::Number("1".to_string()).as_str(), None);
    assert_eq!(Json::Null.as_str(), None);
    assert_eq!(Json::Bool(true).as_str(), None);
}

#[test]
fn as_u64_reads_unsigned_integers_only() {
    assert_eq!(Json::Number("24".to_string()).as_u64(), Some(24));
    assert_eq!(Json::Number("18446744073709551615".to_string()).as_u64(), Some(u64::MAX));
    assert_eq!(Json::Number("-24".to_string()).as_u64(), None);
    assert_eq!(Json::Number("24.0".to_string()).as_u64(), None);
    assert_eq!(Json::Number("1.8446744073709552e19".to_string()).as_u64(), None);
    assert_eq!(Json::text("24").as_u64(), None);
    assert_eq!(Json::Null.as_u64(), None);
}

#[test]
fn as_bool_reads_booleans_only() {
    assert_eq!(Json::Bool(true).as_bool(), Some(true));
    assert_eq!(Json::Bool(false).as_bool(), Some(false));
    assert_eq!(Json::text("true").as_bool(), None);
    assert_eq!(Json::Number("1".to_string()).as_bool(), None);
    assert_eq!(Json::Null.as_bool(), None);
}

#[test]
fn a_clone_is_equal_to_what_it_was_made_of() {
    let nested = Json::Array(vec![sample(), Json::Array(vec![Json::Null, sample()])]);
    assert_eq!(nested.clone(), nested);
    assert_eq!(Json::Null.clone(), Json::Null);
}
