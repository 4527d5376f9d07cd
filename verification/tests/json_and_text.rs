use payment_gateway::errors::{ErrorKind, GatewayError};
use payment_gateway::json::{copy_members, find_member, member_of, parse_text, JsonValue};
use payment_gateway::text::{blank, join, decimal, same_text};

#[test]
fn get_finds_the_first_member_of_a_name() {
    let doc = JsonValue::Object(vec![
        member_of("a", JsonValue::Integer(1)),
        member_of("b", JsonValue::text("x")),
        member_of("a", JsonValue::Integer(2)),
    ]);
    assert_eq!(doc.get("a"), Some(&JsonValue::Integer(1)));
    assert_eq!(doc.get("b"), Some(&JsonValue::String("x".to_string())));
    assert_eq!(doc.get("c"), None);
    assert_eq!(doc.int_field("a"), Some(1));
    assert_eq!(doc.int_field("b"), None);
    assert_eq!(doc.str_field("b"), Some("x"));
    assert_eq!(doc.str_field("a"), None);
    assert_eq!(doc.str_field("c"), None);
}

#[test]
fn get_on_what_is_no_object_finds_nothing() {
    assert_eq!(JsonValue::Null.get("a"), None);
    assert_eq!(JsonValue::text("a").get("a"), None);
    assert_eq!(JsonValue::Array(vec![JsonValue::text("a")]).get("a"), None);
}

#[test]
fn accessors_tell_the_kinds_apart() {
    assert_eq!(JsonValue::text("hi").as_str(), Some("hi"));
    assert_eq!(JsonValue::Integer(5).as_str(), None);
    assert_eq!(JsonValue::Integer(-5).as_i64(), Some(-5));
    assert_eq!(JsonValue::Number("1.5".to_string()).as_i64(), None);
    assert_eq!(JsonValue::text("5").as_i64(), None);
    assert!(JsonValue::text("").is_string());
    assert!(!JsonValue::Null.is_string());
    assert!(JsonValue::Object(vec![]).is_object());
    assert!(!JsonValue::Array(vec![]).is_object());
}

#[test]
fn optional_values_become_null_when_missing() {
    assert_eq!(JsonValue::opt_text(&None), JsonValue::Null);
    assert_eq!(
        JsonValue::opt_text(&Some("x".to_string())),
        JsonValue::String("x".to_string())
    );
    assert_eq!(JsonValue::opt_int(None), JsonValue::Null);
    assert_eq!(JsonValue::opt_int(Some(0)), JsonValue::Integer(0));
}

#[test]
fn clone_copies_the_whole_tree() {
    let doc = JsonValue::Object(vec![
        member_of(
            "list",
            JsonValue::Array(vec![
                JsonValue::Null,
                JsonValue::Bool(false),
                JsonValue::Object(vec![member_of("n", JsonValue::Number("1e9".to_string()))]),
            ]),
        ),
        member_of("s", JsonValue::text("t")),
    ]);
    assert_eq!(doc.clone(), doc);
    let members = vec![member_of("k", doc.clone())];
    assert_eq!(copy_members(&members), members);
    assert_eq!(find_member(&members, "k"), Some(&doc));
    assert_eq!(find_member(&members, "K"), None);
}

#[test]
fn decimal_writes_integers_in_base_ten() {
    assert_eq!(decimal(0), "0");
    assert_eq!(decimal(7), "7");
    assert_eq!(decimal(10), "10");
    assert_eq!(decimal(500), "500");
    assert_eq!(decimal(-1), "-1");
    assert_eq!(decimal(-120), "-120");
    assert_eq!(decimal(1234567890), "1234567890");
    assert_eq!(decimal(i64::MAX), "9223372036854775807");
    assert_eq!(decimal(i64::MIN), "-9223372036854775808");
}

#[test]
fn blank_is_nothing_but_white_space() {
    assert!(blank(""));
    assert!(blank(" \t\r\n"));
    assert!(blank("\u{a0}\u{2003}\u{3000}\u{85}\u{1680}\u{2028}\u{2029}\u{202f}\u{205f}"));
    assert!(!blank(" a "));
    assert!(!blank("\u{200b}"));
    assert!(!blank("\u{1c}"));
}

#[test]
fn texts_are_compared_and_joined() {
    assert!(same_text("abc", "abc"));
    assert!(!same_text("abc", "abd"));
    assert!(!same_text("abc", "ab"));
    assert!(same_text("", ""));
    assert_eq!(join("ab", "cd"), "abcd");
    assert_eq!(join("", ""), "");
}

#[test]
fn errors_print_their_kind_and_detail() {
    let cases = vec![
        (
            GatewayError::InvalidRequest("a".to_string()),
            ErrorKind::InvalidRequest,
            "Invalid request: a",
        ),
        (
            GatewayError::StripeError("b".to_string()),
            ErrorKind::StripeError,
            "Stripe API error: b",
        ),
        (
            GatewayError::SecretsManagerError("c".to_string()),
            ErrorKind::SecretsManagerError,
            "Secrets Manager error: c",
        ),
        (
            GatewayError::SerializationError("d".to_string()),
            ErrorKind::SerializationError,
            "Serialization error: d",
        ),
        (
            GatewayError::Unexpected("".to_string()),
            ErrorKind::Unexpected,
            "Unexpected error: ",
        ),
    ];
    for (error, kind, printed) in cases {
        assert_eq!(error.kind(), kind);
        assert_eq!(error.to_string(), printed);
        assert!(printed.ends_with(error.detail()));
    }
}

#[test]
fn parse_text_reads_every_kind_of_document() {
    assert_eq!(parse_text("null"), Ok(JsonValue::Null));
    assert_eq!(parse_text(" true "), Ok(JsonValue::Bool(true)));
    assert_eq!(parse_text("-17"), Ok(JsonValue::Integer(-17)));
    assert_eq!(
        parse_text("9223372036854775807"),
        Ok(JsonValue::Integer(i64::MAX))
    );
    assert_eq!(
        parse_text("18446744073709551615"),
        Ok(JsonValue::Number("18446744073709551615".to_string()))
    );
    assert_eq!(
        parse_text("0.25"),
        Ok(JsonValue::Number("0.25".to_string()))
    );
    assert_eq!(
        parse_text(r#""a\u00e9\n""#),
        Ok(JsonValue::String("a\u{e9}\n".to_string()))
    );
    assert_eq!(
        parse_text(r#"{"b":[1,{"c":null}],"a":"x"}"#),
        Ok(JsonValue::Object(vec![
            member_of("a", JsonValue::text("x")),
            member_of(
                "b",
                JsonValue::Array(vec![
                    JsonValue::Integer(1),
                    JsonValue::Object(vec![member_of("c", JsonValue::Null)]),
                ])
            ),
        ]))
    );
}

#[test]
fn parse_text_keeps_the_last_of_two_members_of_a_name() {
    assert_eq!(
        parse_text(r#"{"a":1,"a":2}"#),
        Ok(JsonValue::Object(vec![member_of(
            "a",
            JsonValue::Integer(2)
        )]))
    );
}

#[test]
fn parse_text_reports_what_is_no_json() {
    for text in ["", "{", "[1,]", "nul", "{\"a\" 1}", "1 2"] {
        match parse_text(text) {
            Err(message) => assert!(!message.is_empty()),
            Ok(doc) => panic!("unexpected document: {:?}", doc),
        }
    }
    assert_eq!(
        parse_text("x"),
        Err("expected value at line 1 column 1".to_string())
    );
}
