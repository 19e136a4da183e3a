use askbot::qa::default_context;
use askbot::reply::content_payload;
use askbot::reply::format_reply;

#[test]
fn reply_has_the_documented_shape() {
    let q = String::from("What is the capital of France?");
    let a = String::from("Paris");
    assert_eq!(
        format_reply(&q, &a),
        "You asked: 'What is the capital of France?'\nQuestion Answer: Paris\n"
    );
}

#[test]
fn reply_with_empty_answer_text() {
    let q = String::from("q");
    let a = String::new();
    assert_eq!(format_reply(&q, &a), "You asked: 'q'\nQuestion Answer: \n");
}

#[test]
fn default_context_is_the_placeholder() {
    assert_eq!(default_context(), "Provide your context here.");
}

#[test]
fn payload_wraps_plain_content() {
    let c = String::from("hi");
    assert_eq!(content_payload(&c), "{\"content\":\"hi\"}");
}

#[test]
fn payload_escapes_quotes_backslashes_and_controls() {
    let c = String::from("a \"b\" \\ c\nd\te\r");
    assert_eq!(
        content_payload(&c),
        "{\"content\":\"a \\\"b\\\" \\\\ c\\nd\\te\\r\"}"
    );
    let ctl = String::from("\u{1}\u{1f}\u{8}\u{c}");
    assert_eq!(content_payload(&ctl), "{\"content\":\"\\u0001\\u001f\\b\\f\"}");
}

#[test]
fn payload_matches_the_json_library() {
    let cases = [
        "",
        "plain text",
        "with \"quotes\" and \\backslashes\\",
        "line\nbreak\ttab\rreturn",
        "\u{0}\u{1}\u{b}\u{1f}\u{7f}",
        "unicode: caf\u{e9} \u{1f600} \u{4e2d}",
        "You asked: 'q'\nQuestion Answer: a\n",
    ];
    for case in cases {
        let mine = content_payload(&String::from(case));
        let mut map = serde_json::Map::new();
        map.insert(
            String::from("content"),
            serde_json::Value::String(String::from(case)),
        );
        let theirs = serde_json::to_string(&serde_json::Value::Object(map)).unwrap();
        assert_eq!(mine, theirs, "payload differs for {case:?}");
    }
}
