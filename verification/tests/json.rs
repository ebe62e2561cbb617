use agent1::json::{parse, to_text, Json};

fn text(s: &str) -> Json {
    Json::Text(s.to_string())
}

fn number(s: &str) -> Json {
    Json::Number(s.to_string())
}

fn object(members: Vec<(&str, Json)>) -> Json {
    Json::Object(members.into_iter().map(|(k, v)| (k.to_string(), v)).collect())
}

#[test]
fn document_is_read_from_text() {
    let doc = parse("{\"b\": [1, 2.5, null, true, -3], \"a\": \"x\", \"c\": {}}").expect("valid JSON");
    assert_eq!(
        doc,
        object(vec![
            ("a", text("x")),
            (
                "b",
                Json::Array(vec![
                    number("1"),
                    number("2.5"),
                    Json::Null,
                    Json::Bool(true),
                    number("-3"),
                ])
            ),
            ("c", object(vec![])),
        ])
    );
}

#[test]
fn document_is_written_as_text() {
    let doc = object(vec![
        ("name", text("a \"quoted\" text\n")),
        ("list", Json::Array(vec![number("1"), Json::Bool(false), Json::Null])),
        ("nested", object(vec![("k", text("v"))])),
    ]);
    assert_eq!(
        to_text(&doc),
        "{\"list\":[1,false,null],\"name\":\"a \\\"quoted\\\" text\\n\",\"nested\":{\"k\":\"v\"}}"
    );
    assert_eq!(to_text(&Json::Null), "null");
    assert_eq!(to_text(&text("é")), "\"é\"");
    assert_eq!(to_text(&Json::Array(Vec::new())), "[]");
}

#[test]
fn written_document_is_read_back() {
    let doc = object(vec![
        ("a", Json::Array(vec![number("0"), number("18446744073709551615"), number("-7"), number("1.5e+300")])),
        ("b", object(vec![("c", Json::Null), ("d", text("tab\there"))])),
        ("e", Json::Bool(true)),
    ]);
    assert_eq!(parse(&to_text(&doc)), Ok(doc));
}

#[test]
fn number_is_held_in_the_text_that_is_written_for_it() {
    assert_eq!(
        parse("[1.5e300, 1.50, 1E2, -0, 0.0, 10000000000000000000000]"),
        Ok(Json::Array(vec![
            number("1.5e+300"),
            number("1.5"),
            number("100.0"),
            number("-0.0"),
            number("0.0"),
            number("1e+22"),
        ]))
    );
    assert_eq!(to_text(&number("1.5e300")), "1.5e+300");
    assert_eq!(to_text(&number("007")), "null");
}

#[test]
fn later_member_of_the_same_key_counts() {
    let doc = object(vec![("k", number("1")), ("k", number("2"))]);
    assert_eq!(to_text(&doc), "{\"k\":2}");
    assert_eq!(doc.member("k"), Some(&number("2")));
    assert_eq!(parse("{\"k\": 1, \"k\": 2}"), Ok(object(vec![("k", number("2"))])));
}

#[test]
fn member_of_an_object_is_found_by_its_key() {
    let doc = object(vec![("path", text("src")), ("other", Json::Null)]);
    assert_eq!(doc.member("path"), Some(&text("src")));
    assert_eq!(doc.member("other"), Some(&Json::Null));
    assert_eq!(doc.member("Path"), None);
    assert_eq!(doc.member(""), None);
    assert_eq!(text("path").member("path"), None);
    assert_eq!(Json::Array(vec![text("path")]).member("path"), None);
}

#[test]
fn number_that_is_no_number_is_written_as_null() {
    assert_eq!(to_text(&number("not a number")), "null");
    assert_eq!(to_text(&number("")), "null");
    assert_eq!(to_text(&number("[1]")), "null");
    assert_eq!(to_text(&number("\"1\"")), "null");
    assert_eq!(to_text(&number("true")), "null");
}

#[test]
fn text_that_is_no_json_is_an_error() {
    for bad in ["", "{", "{\"a\": }", "[1, 2", "nul", "{\"a\": 1} trailing", "'single'"] {
        assert!(parse(bad).is_err(), "{bad:?}");
    }
    let message = parse("{\"a\": }").unwrap_err();
    assert_eq!(message, "expected value at line 1 column 7");
}

#[test]
fn copy_of_a_document_is_equal_to_it() {
    let doc = object(vec![
        ("a", Json::Array(vec![number("1"), object(vec![("b", text("c"))])])),
        ("d", Json::Null),
    ]);
    assert_eq!(doc.clone(), doc);
}

#[test]
fn constructors_build_documents() {
    assert_eq!(Json::text("x"), text("x"));
    assert_eq!(Json::optional_text(&Some("x".to_string())), text("x"));
    assert_eq!(Json::optional_text(&None), Json::Null);
    assert_eq!(Json::array(vec![Json::Null]), Json::Array(vec![Json::Null]));
    assert_eq!(
        Json::object(vec![Json::entry("k", Json::Bool(true))]),
        object(vec![("k", Json::Bool(true))])
    );
}
