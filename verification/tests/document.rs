use ndjson_upsert::document::{Document, NotJson};

#[test]
fn parse_rejects_what_is_not_json() {
    assert_eq!(Document::parse("{\"id\":"), Err(NotJson));
    assert_eq!(Document::parse("not json"), Err(NotJson));
    assert_eq!(Document::parse(""), Err(NotJson));
    assert_eq!(Document::parse("{} {}"), Err(NotJson));
}

#[test]
fn parse_then_text_writes_compact_json() {
    let doc = Document::parse(" { \"b\" : [1, 2.5, true, null] , \"a\" : \"x\" } ").unwrap();
    assert_eq!(doc.text(), "{\"a\":\"x\",\"b\":[1,2.5,true,null]}");
}

#[test]
fn string_member_finds_strings_only() {
    let doc = Document::parse("{\"s\":\"text\",\"n\":5,\"z\":null,\"e\":\"\"}").unwrap();
    assert_eq!(doc.string_member("s"), Some(String::from("text")));
    assert_eq!(doc.string_member("e"), Some(String::new()));
    assert_eq!(doc.string_member("n"), None);
    assert_eq!(doc.string_member("z"), None);
    assert_eq!(doc.string_member("missing"), None);
}

#[test]
fn string_member_is_unescaped() {
    let doc = Document::parse("{\"s\":\"a\\\"b\\u00e9\"}").unwrap();
    assert_eq!(doc.string_member("s"), Some(String::from("a\"bé")));
}

#[test]
fn a_value_that_is_no_object_has_no_members() {
    let list = Document::parse("[\"id\"]").unwrap();
    assert_eq!(list.string_member("id"), None);
    assert_eq!(list.member_text("id"), None);
    assert_eq!(list.member_text_or_null("id"), "null");
    let text = Document::parse("\"id\"").unwrap();
    assert_eq!(text.string_member("id"), None);
}

#[test]
fn member_text_writes_the_member() {
    let doc = Document::parse("{\"_id\":\"42\",\"n\":{\"k\":[1]},\"z\":null}").unwrap();
    assert_eq!(doc.member_text("_id"), Some(String::from("\"42\"")));
    assert_eq!(doc.member_text("n"), Some(String::from("{\"k\":[1]}")));
    assert_eq!(doc.member_text("z"), Some(String::from("null")));
    assert_eq!(doc.member_text("missing"), None);
}

#[test]
fn member_text_or_null_writes_null_for_a_missing_member() {
    let doc = Document::parse("{\"_source\":{\"k\":1}}").unwrap();
    assert_eq!(doc.member_text_or_null("_source"), "{\"k\":1}");
    assert_eq!(doc.member_text_or_null("other"), "null");
}

#[test]
fn remove_takes_one_member_out() {
    let mut doc = Document::parse("{\"id\":\"42\",\"name\":\"x\",\"n\":1}").unwrap();
    doc.remove("id");
    assert_eq!(doc.text(), "{\"n\":1,\"name\":\"x\"}");
    assert_eq!(doc.member_text("id"), None);
}

#[test]
fn remove_of_a_missing_member_changes_nothing() {
    let mut doc = Document::parse("{\"name\":\"x\"}").unwrap();
    doc.remove("id");
    assert_eq!(doc, Document::parse("{\"name\":\"x\"}").unwrap());
}

#[test]
fn remove_leaves_a_value_that_is_no_object() {
    let mut doc = Document::parse("[1,2]").unwrap();
    doc.remove("id");
    assert_eq!(doc.text(), "[1,2]");
}

#[test]
fn a_repeated_key_keeps_its_last_value() {
    let doc = Document::parse("{\"id\":\"1\",\"id\":\"2\"}").unwrap();
    assert_eq!(doc.string_member("id"), Some(String::from("2")));
}
