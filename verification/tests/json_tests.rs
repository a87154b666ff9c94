use cas_login::json::{Json, Member};

fn object(members: Vec<(&str, Json)>) -> Json {
    Json::Object(
        members.into_iter().map(|(k, v)| Member { key: k.to_string(), value: v }).collect(),
    )
}

fn text(s: &str) -> Json {
    Json::Text(s.to_string())
}

#[test]
fn member_of_an_object() {
    let doc = object(vec![("a", text("1")), ("b", Json::Null), ("c", Json::Bool(true))]);
    assert_eq!(doc.get("a"), Some(&text("1")));
    assert_eq!(doc.get("b"), Some(&Json::Null));
    assert_eq!(doc.get("c"), Some(&Json::Bool(true)));
    assert_eq!(doc.get("d"), None);
    assert_eq!(doc.get(""), None);
    assert_eq!(doc.get("A"), None);
}

#[test]
fn first_member_with_the_key_counts() {
    let doc = object(vec![("k", text("first")), ("k", text("second"))]);
    assert_eq!(doc.get("k"), Some(&text("first")));
}

#[test]
fn only_objects_have_members() {
    for value in [
        Json::Null,
        Json::Bool(false),
        Json::Number("1".to_string()),
        text("a"),
        Json::Array(vec![object(vec![("a", text("1"))])]),
    ] {
        assert_eq!(value.get("a"), None);
    }
    assert_eq!(object(vec![]).get("a"), None);
}

#[test]
fn text_of_a_string() {
    assert_eq!(text("NONE").as_str(), Some("NONE"));
    assert_eq!(text("").as_str(), Some(""));
    assert_eq!(Json::Number("1".to_string()).as_str(), None);
    assert_eq!(Json::Null.as_str(), None);
    assert_eq!(object(vec![]).as_str(), None);
}

#[test]
fn text_two_levels_down() {
    let doc = object(vec![
        ("data", object(vec![("state", text("NONE")), ("need", Json::Bool(false))])),
        ("state", text("outer")),
    ]);
    assert_eq!(doc.str_at("data", "state"), Some("NONE"));
    assert_eq!(doc.str_at("data", "need"), None);
    assert_eq!(doc.str_at("data", "missing"), None);
    assert_eq!(doc.str_at("state", "data"), None);
    assert_eq!(doc.str_at("missing", "state"), None);
}
