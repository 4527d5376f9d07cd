use payment_gateway::errors::{ErrorKind, GatewayError};
use payment_gateway::json::JsonValue;
use payment_gateway::models::PaymentRequest;
use payment_gateway::parser::JsonRequestParser;

fn text(s: &str) -> JsonValue {
    JsonValue::String(s.to_string())
}

fn object(members: Vec<(&str, JsonValue)>) -> JsonValue {
    JsonValue::Object(members.into_iter().map(|(k, v)| (k.to_string(), v)).collect())
}

fn event(body: JsonValue) -> JsonValue {
    object(vec![("body", body)])
}

fn bare_request(store_id: &str, request_type: &str) -> PaymentRequest {
    PaymentRequest {
        store_id: store_id.to_string(),
        amount: None,
        currency: None,
        payment_token: None,
        description: None,
        request_type: request_type.to_string(),
        success_url: None,
        cancel_url: None,
        charge_id: None,
        session_id: None,
        webhook_event: None,
    }
}

#[test]
fn event_without_body_is_an_invalid_request() {
    let parser = JsonRequestParser::new();
    let result = parser.parse(object(vec![("payload", text("x"))]));
    assert_eq!(
        result,
        Err(GatewayError::InvalidRequest("Request body is missing".to_string()))
    );
}

#[test]
fn event_that_is_no_object_has_no_body() {
    let parser = JsonRequestParser::new();
    assert_eq!(
        parser.parse(JsonValue::Null),
        Err(GatewayError::InvalidRequest("Request body is missing".to_string()))
    );
    assert_eq!(
        parser.parse(JsonValue::Array(vec![text("body")])),
        Err(GatewayError::InvalidRequest("Request body is missing".to_string()))
    );
}

#[test]
fn body_of_another_shape_is_an_invalid_request() {
    let parser = JsonRequestParser::new();
    for body in [
        JsonValue::Null,
        JsonValue::Bool(true),
        JsonValue::Integer(3),
        JsonValue::Array(vec![]),
    ] {
        assert_eq!(
            parser.parse(event(body)),
            Err(GatewayError::InvalidRequest(
                "Body must be a JSON string or object".to_string()
            ))
        );
    }
}

#[test]
fn object_body_is_decoded_as_it_is() {
    let parser = JsonRequestParser::new();
    let body = object(vec![
        ("storeId", text("store-1")),
        ("requestType", text("CHARGE")),
        ("amount", JsonValue::Integer(500)),
        ("currency", text("usd")),
        ("paymentToken", text("tok_visa")),
        ("description", JsonValue::Null),
        ("ignored", JsonValue::Bool(false)),
    ]);
    let mut expected = bare_request("store-1", "CHARGE");
    expected.amount = Some(500);
    expected.currency = Some("usd".to_string());
    expected.payment_token = Some("tok_visa".to_string());
    assert_eq!(parser.parse(event(body)), Ok(expected));
}

#[test]
fn string_body_is_read_as_json_text() {
    let parser = JsonRequestParser::new();
    let body = text(
        r#"{"storeId":"s1","requestType":"webhook","sessionId":"cs_1","webhookEvent":{"id":"evt_1","type":"charge.succeeded","data":{"n":[1,2.5,true,null]}}}"#,
    );
    let mut expected = bare_request("s1", "webhook");
    expected.session_id = Some("cs_1".to_string());
    expected.webhook_event = Some(vec![
        (
            "data".to_string(),
            object(vec![(
                "n",
                JsonValue::Array(vec![
                    JsonValue::Integer(1),
                    JsonValue::Number("2.5".to_string()),
                    JsonValue::Bool(true),
                    JsonValue::Null,
                ]),
            )]),
        ),
        ("id".to_string(), text("evt_1")),
        ("type".to_string(), text("charge.succeeded")),
    ]);
    assert_eq!(parser.parse(event(body)), Ok(expected));
}

#[test]
fn string_body_that_is_no_json_is_a_serialization_error() {
    let parser = JsonRequestParser::new();
    let result = parser.parse(event(text("{not json")));
    match result {
        Err(GatewayError::SerializationError(message)) => assert!(!message.is_empty()),
        other => panic!("unexpected result: {:?}", other),
    }
}

#[test]
fn string_body_that_holds_no_object_is_a_serialization_error() {
    let parser = JsonRequestParser::new();
    assert_eq!(
        parser.parse(event(text("[1, 2]"))),
        Err(GatewayError::SerializationError(
            "invalid type: expected an object".to_string()
        ))
    );
}

#[test]
fn missing_store_id_is_a_serialization_error() {
    let parser = JsonRequestParser::new();
    let body = object(vec![("requestType", text("CHARGE"))]);
    assert_eq!(
        parser.parse(event(body)),
        Err(GatewayError::SerializationError(
            "missing field `storeId`".to_string()
        ))
    );
}

#[test]
fn missing_request_type_is_a_serialization_error() {
    let parser = JsonRequestParser::new();
    let body = object(vec![("storeId", text("s1"))]);
    let result = parser.parse(event(body));
    assert_eq!(
        result,
        Err(GatewayError::SerializationError(
            "missing field `requestType`".to_string()
        ))
    );
    assert_eq!(result.unwrap_err().kind(), ErrorKind::SerializationError);
}

#[test]
fn mistyped_fields_are_serialization_errors() {
    let parser = JsonRequestParser::new();
    let cases = vec![
        ("storeId", JsonValue::Integer(7)),
        ("storeId", JsonValue::Null),
        ("amount", text("500")),
        ("amount", JsonValue::Number("12.5".to_string())),
        ("currency", JsonValue::Integer(1)),
        ("webhookEvent", JsonValue::Array(vec![])),
    ];
    for (name, value) in cases {
        let mut members = vec![("storeId", text("s1")), ("requestType", text("STATUS"))];
        members.retain(|(k, _)| *k != name);
        members.push((name, value));
        assert_eq!(
            parser.decode(&object(members)),
            Err(GatewayError::SerializationError(format!(
                "invalid type for field `{}`",
                name
            )))
        );
    }
}

#[test]
fn the_first_field_at_fault_decides() {
    let parser = JsonRequestParser::new();
    let doc = object(vec![
        ("currency", JsonValue::Bool(true)),
        ("amount", text("1")),
        ("storeId", text("s1")),
    ]);
    assert_eq!(
        parser.decode(&doc),
        Err(GatewayError::SerializationError(
            "invalid type for field `amount`".to_string()
        ))
    );
}

#[test]
fn amount_beyond_64_bits_is_refused() {
    let parser = JsonRequestParser::new();
    let body = text(r#"{"storeId":"s1","requestType":"REFUND","amount":9223372036854775808}"#);
    assert_eq!(
        parser.parse(event(body)),
        Err(GatewayError::SerializationError(
            "invalid type for field `amount`".to_string()
        ))
    );
    let body = text(r#"{"storeId":"s1","requestType":"REFUND","amount":-9223372036854775808}"#);
    let mut expected = bare_request("s1", "REFUND");
    expected.amount = Some(i64::MIN);
    assert_eq!(parser.parse(event(body)), Ok(expected));
}

#[test]
fn reparsing_a_parsed_request_gives_it_back() {
    let parser = JsonRequestParser::new();
    let mut request = bare_request("store-9", "Payment_Link");
    request.amount = Some(-3);
    request.currency = Some("eur".to_string());
    request.description = Some("a \"quoted\" thing".to_string());
    request.success_url = Some("https://shop.example/ok".to_string());
    request.webhook_event = Some(vec![
        ("type".to_string(), text("x")),
        ("id".to_string(), JsonValue::Integer(4)),
        ("type".to_string(), JsonValue::Null),
    ]);
    let once = parser.parse(event(request.to_json())).unwrap();
    assert_eq!(once, request);
    let twice = parser.decode(&once.to_json()).unwrap();
    assert_eq!(twice, request);
}

#[test]
fn reparsing_a_bare_request_gives_it_back() {
    let parser = JsonRequestParser::new();
    let request = bare_request("", "");
    assert_eq!(parser.decode(&request.to_json()), Ok(request));
}
