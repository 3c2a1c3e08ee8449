use mycli::error::MyError;
use mycli::json::{parse, print, Json, Member};

fn member(key: &str, value: Json) -> Member {
    Member { key: key.to_string(), value }
}

#[test]
fn parse_reads_a_string() {
    assert_eq!(parse("\"hello\"").unwrap(), Json::Text("hello".to_string()));
}

#[test]
fn parse_reads_the_simple_values() {
    assert_eq!(parse("null").unwrap(), Json::Null);
    assert_eq!(parse("true").unwrap(), Json::Bool(true));
    assert_eq!(parse(" false ").unwrap(), Json::Bool(false));
    assert_eq!(parse("7").unwrap(), Json::Number(serde_json::Number::from(7u64)));
}

#[test]
fn parse_reads_arrays_in_order() {
    let doc = parse("[\"a\", [\"b\"], null]").unwrap();
    let wanted = Json::Array(vec![
        Json::Text("a".to_string()),
        Json::Array(vec![Json::Text("b".to_string())]),
        Json::Null,
    ]);
    assert_eq!(doc, wanted);
}

#[test]
fn parse_reads_objects_with_their_keys() {
    let doc = parse("{\"b\": \"x\", \"a\": {\"c\": true}}").unwrap();
    assert_eq!(doc.get("b"), Some(&Json::Text("x".to_string())));
    assert_eq!(doc.get("a"), Some(&Json::Object(vec![member("c", Json::Bool(true))])));
    assert_eq!(doc.get("c"), None);
}

#[test]
fn parse_undoes_escapes() {
    assert_eq!(parse("\"a\\\"b\\n\\u00e9\"").unwrap(), Json::Text("a\"b\n\u{e9}".to_string()));
}

#[test]
fn parse_keeps_the_last_of_two_equal_keys() {
    let doc = parse("{\"a\": \"first\", \"a\": \"second\"}").unwrap();
    assert_eq!(doc.get("a"), Some(&Json::Text("second".to_string())));
}

#[test]
fn parse_rejects_what_is_not_json() {
    for text in ["", "   ", "not json", "{", "{\"a\":}", "[1,]", "\"open", "{} trailing", "{'a': 1}"] {
        assert!(matches!(parse(text), Err(MyError::JsonError(_))), "accepted {:?}", text);
    }
}

#[test]
fn print_writes_a_string_with_escapes() {
    assert_eq!(print(&Json::Text("a\"b\\c\n".to_string())).unwrap(), "\"a\\\"b\\\\c\\n\"");
}

#[test]
fn print_writes_compact_text() {
    let doc = Json::Object(vec![
        member("list", Json::Array(vec![Json::Null, Json::Bool(true), Json::Number(serde_json::Number::from(3u64))])),
        member("name", Json::Text("x y".to_string())),
    ]);
    assert_eq!(print(&doc).unwrap(), "{\"list\":[null,true,3],\"name\":\"x y\"}");
}

#[test]
fn print_writes_the_last_of_two_equal_keys() {
    let doc = Json::Object(vec![
        member("a", Json::Text("first".to_string())),
        member("a", Json::Text("second".to_string())),
    ]);
    assert_eq!(doc.get("a"), Some(&Json::Text("second".to_string())));
    assert_eq!(print(&doc).unwrap(), "{\"a\":\"second\"}");
}

#[test]
fn print_then_parse_gives_the_document_back() {
    let doc = Json::Object(vec![
        member("a", Json::Array(vec![Json::Text("\u{1f600} \t".to_string()), Json::Null])),
        member("b", Json::Object(vec![])),
    ]);
    let text = print(&doc).unwrap();
    assert_eq!(parse(&text).unwrap(), doc);
}

#[test]
fn get_answers_only_for_objects() {
    assert_eq!(Json::Null.get("a"), None);
    assert_eq!(Json::Text("a".to_string()).get("a"), None);
    assert_eq!(Json::Array(vec![Json::Text("a".to_string())]).get("a"), None);
    assert_eq!(Json::Object(vec![]).get("a"), None);
}

#[test]
fn get_compares_whole_keys() {
    let doc = Json::Object(vec![member("key", Json::Null), member("ke", Json::Bool(false))]);
    assert_eq!(doc.get("ke"), Some(&Json::Bool(false)));
    assert_eq!(doc.get("key"), Some(&Json::Null));
    assert_eq!(doc.get("k"), None);
    assert_eq!(doc.get("keys"), None);
}

#[test]
fn as_text_answers_only_for_strings() {
    assert_eq!(Json::Text("hi".to_string()).as_text(), Some("hi"));
    assert_eq!(Json::Text(String::new()).as_text(), Some(""));
    assert_eq!(Json::Null.as_text(), None);
    assert_eq!(Json::Bool(true).as_text(), None);
    assert_eq!(Json::Array(vec![]).as_text(), None);
}

#[test]
fn as_items_answers_only_for_arrays() {
    let items = vec![Json::Null, Json::Bool(true)];
    assert_eq!(Json::Array(vec![Json::Null, Json::Bool(true)]).as_items(), Some(&items));
    assert_eq!(Json::Object(vec![]).as_items(), None);
    assert_eq!(Json::Text("[]".to_string()).as_items(), None);
}
