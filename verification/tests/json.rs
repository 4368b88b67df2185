use jira_worklogs::json::{Json, Member};

fn member(name: &str, value: Json) -> Member {
    Member { name: name.to_string(), value }
}

#[test]
fn from_slice_reads_every_kind_of_value() {
    let document = Json::from_slice(
        b"{\"n\": null, \"t\": true, \"i\": 42, \"s\": \"text\", \"a\": [1, \"x\"], \"o\": {\"k\": false}}",
    )
    .unwrap();
    assert_eq!(document.get("n"), Some(&Json::Null));
    assert_eq!(document.get("t"), Some(&Json::Bool(true)));
    assert_eq!(document.get("i"), Some(&Json::Number(Some(42))));
    assert_eq!(document.get("s"), Some(&Json::Text("text".to_string())));
    assert_eq!(
        document.get("a"),
        Some(&Json::Array(vec![Json::Number(Some(1)), Json::Text("x".to_string())]))
    );
    assert_eq!(
        document.get("o"),
        Some(&Json::Object(vec![member("k", Json::Bool(false))]))
    );
    assert_eq!(document.get("missing"), None);
}

#[test]
fn from_slice_keeps_of_a_number_its_value_as_u64() {
    assert_eq!(Json::from_slice(b"0"), Some(Json::Number(Some(0))));
    assert_eq!(
        Json::from_slice(b"18446744073709551615"),
        Some(Json::Number(Some(u64::MAX)))
    );
    assert_eq!(Json::from_slice(b"-1"), Some(Json::Number(None)));
    assert_eq!(Json::from_slice(b"1.5"), Some(Json::Number(None)));
    assert_eq!(Json::from_slice(b"18446744073709551616"), Some(Json::Number(None)));
}

#[test]
fn from_slice_refuses_what_is_no_json_text() {
    assert_eq!(Json::from_slice(b"invalid_json_body"), None);
    assert_eq!(Json::from_slice(b""), None);
    assert_eq!(Json::from_slice(b"{\"a\": 1"), None);
    assert_eq!(Json::from_slice(b"{} trailing"), None);
    assert_eq!(Json::from_slice(&[0xff, 0xfe]), None);
}

#[test]
fn from_slice_lets_the_last_of_repeated_members_stand() {
    let document = Json::from_slice(b"{\"a\": 1, \"a\": 2}").unwrap();
    assert_eq!(document.get("a"), Some(&Json::Number(Some(2))));
}

#[test]
fn get_finds_the_first_member_of_that_name() {
    let object = Json::Object(vec![
        member("a", Json::Number(Some(1))),
        member("b", Json::Number(Some(2))),
        member("a", Json::Number(Some(3))),
    ]);
    assert_eq!(object.get("a"), Some(&Json::Number(Some(1))));
    assert_eq!(object.get("b"), Some(&Json::Number(Some(2))));
    assert_eq!(object.get("c"), None);
    assert_eq!(object.get(""), None);
    assert_eq!(Json::Object(vec![]).get("a"), None);
}

#[test]
fn get_finds_nothing_in_what_is_no_object() {
    assert_eq!(Json::Null.get("a"), None);
    assert_eq!(Json::Text("a".to_string()).get("a"), None);
    assert_eq!(Json::Array(vec![Json::Text("a".to_string())]).get("a"), None);
}

#[test]
fn as_str_as_array_and_as_u64_tell_the_kinds_apart() {
    let text = Json::Text("abc".to_string());
    let array = Json::Array(vec![Json::Null]);
    let number = Json::Number(Some(7));
    assert_eq!(text.as_str(), Some("abc"));
    assert_eq!(text.as_array(), None);
    assert_eq!(text.as_u64(), None);
    assert_eq!(array.as_str(), None);
    assert_eq!(array.as_array(), Some(&vec![Json::Null]));
    assert_eq!(array.as_u64(), None);
    assert_eq!(number.as_str(), None);
    assert_eq!(number.as_array(), None);
    assert_eq!(number.as_u64(), Some(7));
    assert_eq!(Json::Number(None).as_u64(), None);
    assert_eq!(Json::Null.as_u64(), None);
    assert_eq!(Json::Bool(true).as_str(), None);
}
