use payment_gateway::errors::GatewayError;
use payment_gateway::json::JsonValue;
use payment_gateway::remote::Step;
use payment_gateway::services::{SecretsService, StoreReply};

fn service() -> SecretsService {
    SecretsService::new().unwrap()
}

fn found(secret: &str) -> StoreReply {
    StoreReply::Found(secret.to_string())
}

fn no_secret(store: &str) -> Step<String, String> {
    Step::Done(Err(GatewayError::Unexpected(format!(
        "Secret is empty for store: {}",
        store
    ))))
}

#[test]
fn empty_store_id_is_refused_before_the_store_is_asked() {
    let refused = Step::Done(Err(GatewayError::InvalidRequest(
        "Store ID cannot be empty".to_string(),
    )));
    assert_eq!(service().get_secret("", None), refused);
    assert_eq!(service().get_secret("", Some(&found("sk_live"))), refused);
}

#[test]
fn the_store_is_asked_for_the_store_id() {
    assert_eq!(
        service().get_secret("store-1", None),
        Step::Call("store-1".to_string())
    );
}

#[test]
fn a_bare_secret_is_the_key() {
    assert_eq!(
        service().get_secret("s", Some(&found("sk_test_123"))),
        Step::Done(Ok("sk_test_123".to_string()))
    );
    assert_eq!(
        service().get_secret("s", Some(&found("  sk padded "))),
        Step::Done(Ok("  sk padded ".to_string()))
    );
}

#[test]
fn a_bundle_gives_its_stripe_secret_key() {
    let secret = r#"{"stripeSecretKey":"sk_live_9","other":1}"#;
    assert_eq!(
        service().get_secret("s", Some(&found(secret))),
        Step::Done(Ok("sk_live_9".to_string()))
    );
}

#[test]
fn a_bundle_without_a_usable_key_is_used_as_it_is() {
    for secret in [
        r#"{"stripeSecretKey":"   "}"#,
        r#"{"stripeSecretKey":""}"#,
        r#"{"stripeSecretKey":17}"#,
        r#"{"apiKey":"sk"}"#,
        r#"["stripeSecretKey"]"#,
        "12",
    ] {
        assert_eq!(
            service().get_secret("s", Some(&found(secret))),
            Step::Done(Ok(secret.to_string()))
        );
    }
}

#[test]
fn a_secret_of_white_space_is_no_key() {
    assert_eq!(service().get_secret("shop", Some(&found(""))), no_secret("shop"));
    assert_eq!(
        service().get_secret("shop", Some(&found(" \n\t "))),
        no_secret("shop")
    );
}

#[test]
fn an_answer_without_a_secret_is_no_key() {
    assert_eq!(
        service().get_secret("shop-2", Some(&StoreReply::Missing)),
        no_secret("shop-2")
    );
}

#[test]
fn a_failure_of_the_store_is_handed_on() {
    assert_eq!(
        service().get_secret("s", Some(&StoreReply::Failed("timed out".to_string()))),
        Step::Done(Err(GatewayError::SecretsManagerError(
            "timed out".to_string()
        )))
    );
}

#[test]
fn choose_key_goes_by_what_reading_the_secret_gave() {
    let bundle = JsonValue::Object(vec![(
        "stripeSecretKey".to_string(),
        JsonValue::String("sk_b".to_string()),
    )]);
    assert_eq!(
        service().choose_key("s", "raw", &Ok(bundle)),
        Ok("sk_b".to_string())
    );
    assert_eq!(
        service().choose_key("s", "raw", &Err("no json".to_string())),
        Ok("raw".to_string())
    );
    assert_eq!(
        service().choose_key("s", "raw", &Ok(JsonValue::Null)),
        Ok("raw".to_string())
    );
    assert_eq!(
        service().choose_key("s", " ", &Ok(JsonValue::Null)),
        Err(GatewayError::Unexpected(
            "Secret is empty for store: s".to_string()
        ))
    );
}
