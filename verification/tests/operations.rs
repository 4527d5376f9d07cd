use payment_gateway::errors::GatewayError;
use payment_gateway::json::JsonValue;
use payment_gateway::models::{
    ChargeResponse, PaymentLinkResponse, PaymentRequest, PaymentStatusResponse, RefundResponse,
    WebhookResponse,
};
use payment_gateway::processors::{
    handle_stripe_response, outcome_of, ChargeProcessor, PaymentLinkProcessor, RefundProcessor,
    StatusProcessor, StripeChargeProcessor, StripePaymentLinkProcessor, StripeRefundProcessor,
    StripeStatusProcessor, StripeWebhookProcessor, WebhookProcessor,
};
use payment_gateway::remote::{HttpMethod, HttpReply, HttpRequest, RemoteOutcome, Step};

fn text(s: &str) -> JsonValue {
    JsonValue::String(s.to_string())
}

fn object(members: Vec<(&str, JsonValue)>) -> JsonValue {
    JsonValue::Object(members.into_iter().map(|(k, v)| (k.to_string(), v)).collect())
}

fn request(request_type: &str) -> PaymentRequest {
    PaymentRequest {
        store_id: "store-1".to_string(),
        amount: None,
        currency: None,
        payment_token: None,
        description: None,
        request_type: request_type.to_string(),
        success_url: None,
        cancel_url: None,
        charge_id: None,
        session_id: None,
        webhook_event: None,
    }
}

fn replied(status: u16, body: JsonValue) -> RemoteOutcome {
    RemoteOutcome::Replied(HttpReply { status, body })
}

fn invalid<A, T>(detail: &str) -> Step<A, T> {
    Step::Done(Err(GatewayError::InvalidRequest(detail.to_string())))
}

fn post(url: &str, key: &str, body: &str) -> HttpRequest {
    HttpRequest {
        method: HttpMethod::Post,
        url: url.to_string(),
        headers: vec![
            ("Authorization".to_string(), format!("Bearer {}", key)),
            (
                "Content-Type".to_string(),
                "application/x-www-form-urlencoded".to_string(),
            ),
        ],
        body: Some(body.to_string()),
    }
}

fn get(url: &str, key: &str) -> HttpRequest {
    HttpRequest {
        method: HttpMethod::Get,
        url: url.to_string(),
        headers: vec![("Authorization".to_string(), format!("Bearer {}", key))],
        body: None,
    }
}

#[test]
fn charge_without_token_is_refused() {
    let processor = StripeChargeProcessor::new("sk_1".to_string());
    let mut req = request("CHARGE");
    req.amount = Some(500);
    assert_eq!(
        processor.process_charge(&req, None),
        invalid("Payment token is required")
    );
    let ok = replied(200, object(vec![("id", text("ch_1"))]));
    assert_eq!(
        processor.process_charge(&req, Some(&ok)),
        invalid("Payment token is required")
    );
}

#[test]
fn charge_sends_a_form_to_the_charges_endpoint() {
    let processor = StripeChargeProcessor::new("sk_test_1".to_string());
    let mut req = request("CHARGE");
    req.amount = Some(500);
    req.currency = Some("usd".to_string());
    req.payment_token = Some("tok_visa".to_string());
    req.description = Some("Test charge & more=é~".to_string());
    assert_eq!(
        processor.process_charge(&req, None),
        Step::Call(post(
            "https://api.stripe.com/v1/charges",
            "sk_test_1",
            "amount=500&currency=usd&source=tok_visa&description=Test%20charge%20%26%20more%3D%C3%A9~",
        ))
    );
}

#[test]
fn charge_fills_missing_fields_with_zero_and_empty() {
    let processor = StripeChargeProcessor::new("k".to_string());
    let mut req = request("charge");
    req.payment_token = Some("tok".to_string());
    assert_eq!(
        processor.process_charge(&req, None),
        Step::Call(post(
            "https://api.stripe.com/v1/charges",
            "k",
            "amount=0&currency=&source=tok&description=",
        ))
    );
    req.amount = Some(-25);
    assert_eq!(
        processor.process_charge(&req, None),
        Step::Call(post(
            "https://api.stripe.com/v1/charges",
            "k",
            "amount=-25&currency=&source=tok&description=",
        ))
    );
}

#[test]
fn charge_maps_the_remote_answer() {
    let processor = StripeChargeProcessor::new("sk_1".to_string());
    let mut req = request("CHARGE");
    req.payment_token = Some("tok_visa".to_string());
    let ok = replied(
        200,
        object(vec![
            ("id", text("ch_1")),
            ("amount", JsonValue::Integer(500)),
            ("currency", text("usd")),
        ]),
    );
    assert_eq!(
        processor.process_charge(&req, Some(&ok)),
        Step::Done(Ok(ChargeResponse {
            status: "success".to_string(),
            message: None,
            charge_id: Some("ch_1".to_string()),
            amount: Some(500),
            currency: Some("usd".to_string()),
            status_code: 200,
        }))
    );
}

#[test]
fn charge_leaves_out_what_the_answer_lacks() {
    let processor = StripeChargeProcessor::new("sk_1".to_string());
    let mut req = request("CHARGE");
    req.payment_token = Some("tok_visa".to_string());
    let ok = replied(
        201,
        object(vec![
            ("id", JsonValue::Integer(4)),
            ("amount", text("500")),
        ]),
    );
    assert_eq!(
        processor.process_charge(&req, Some(&ok)),
        Step::Done(Ok(ChargeResponse {
            status: "success".to_string(),
            message: None,
            charge_id: None,
            amount: None,
            currency: None,
            status_code: 200,
        }))
    );
}

#[test]
fn remote_rejection_is_an_invalid_request_with_the_remote_message() {
    let processor = StripeChargeProcessor::new("sk_1".to_string());
    let mut req = request("CHARGE");
    req.payment_token = Some("tok_visa".to_string());
    let declined = replied(
        402,
        object(vec![(
            "error",
            object(vec![("message", text("Your card was declined."))]),
        )]),
    );
    assert_eq!(
        processor.process_charge(&req, Some(&declined)),
        invalid("Your card was declined.")
    );
    let bare = replied(500, object(vec![("error", text("boom"))]));
    assert_eq!(
        processor.process_charge(&req, Some(&bare)),
        invalid("Unknown Stripe error")
    );
}

#[test]
fn transport_failure_is_a_stripe_error() {
    let processor = StripeRefundProcessor::new("sk_1".to_string());
    let mut req = request("REFUND");
    req.charge_id = Some("ch_1".to_string());
    let failed = RemoteOutcome::Failed("connection reset".to_string());
    assert_eq!(
        processor.process_refund(&req, Some(&failed)),
        Step::Done(Err(GatewayError::StripeError(
            "connection reset".to_string()
        )))
    );
}

#[test]
fn status_of_success_runs_from_200_to_299() {
    let body = object(vec![("error", object(vec![("message", JsonValue::Null)]))]);
    for status in [200u16, 204, 299] {
        let reply = HttpReply {
            status,
            body: body.clone(),
        };
        assert_eq!(handle_stripe_response(&reply), Ok(&body));
    }
    for status in [0u16, 199, 300, 404, 503] {
        let reply = HttpReply {
            status,
            body: body.clone(),
        };
        assert_eq!(
            handle_stripe_response(&reply),
            Err(GatewayError::InvalidRequest(
                "Unknown Stripe error".to_string()
            ))
        );
    }
    let outcome = replied(200, JsonValue::Null);
    assert_eq!(outcome_of(&outcome), Ok(&JsonValue::Null));
}

#[test]
fn payment_link_needs_both_urls() {
    let processor = StripePaymentLinkProcessor::new("sk_1".to_string());
    let mut req = request("PAYMENT_LINK");
    assert_eq!(
        processor.process_payment_link(&req, None),
        invalid("Success and cancel URLs are required")
    );
    req.success_url = Some("https://x/ok".to_string());
    assert_eq!(
        processor.process_payment_link(&req, None),
        invalid("Success and cancel URLs are required")
    );
    req.success_url = None;
    req.cancel_url = Some("https://x/cancel".to_string());
    let ok = replied(200, object(vec![("url", text("https://pay.example/abc"))]));
    assert_eq!(
        processor.process_payment_link(&req, Some(&ok)),
        invalid("Success and cancel URLs are required")
    );
}

#[test]
fn payment_link_sends_one_line_item_as_a_form() {
    let processor = StripePaymentLinkProcessor::new("sk_2".to_string());
    let mut req = request("PAYMENT_LINK");
    req.amount = Some(1200);
    req.currency = Some("usd".to_string());
    req.description = Some("Blue mug".to_string());
    req.success_url = Some("https://x/ok".to_string());
    req.cancel_url = Some("https://x/cancel".to_string());
    let form = "cancel_url=https%3A%2F%2Fx%2Fcancel\
                &line_items%5B0%5D%5Bprice_data%5D%5Bcurrency%5D=usd\
                &line_items%5B0%5D%5Bprice_data%5D%5Bproduct_data%5D%5Bname%5D=Blue+mug\
                &line_items%5B0%5D%5Bprice_data%5D%5Bunit_amount%5D=1200\
                &line_items%5B0%5D%5Bquantity%5D=1\
                &mode=payment\
                &success_url=https%3A%2F%2Fx%2Fok";
    assert_eq!(
        processor.process_payment_link(&req, None),
        Step::Call(post(
            "https://api.stripe.com/v1/checkout/sessions",
            "sk_2",
            form,
        ))
    );
}

#[test]
fn payment_link_is_the_url_of_the_answer() {
    let processor = StripePaymentLinkProcessor::new("sk_2".to_string());
    let mut req = request("PAYMENT_LINK");
    req.success_url = Some("https://x/ok".to_string());
    req.cancel_url = Some("https://x/cancel".to_string());
    let ok = replied(200, object(vec![("url", text("https://pay.example/abc"))]));
    assert_eq!(
        processor.process_payment_link(&req, Some(&ok)),
        Step::Done(Ok(PaymentLinkResponse {
            status: "success".to_string(),
            message: None,
            payment_link: Some("https://pay.example/abc".to_string()),
            status_code: 200,
        }))
    );
}

#[test]
fn refund_needs_a_charge_id() {
    let processor = StripeRefundProcessor::new("sk_1".to_string());
    let mut req = request("REFUND");
    req.session_id = Some("cs_1".to_string());
    assert_eq!(
        processor.process_refund(&req, None),
        invalid("Charge ID is required")
    );
}

#[test]
fn refund_sends_amount_and_charge() {
    let processor = StripeRefundProcessor::new("sk_3".to_string());
    let mut req = request("REFUND");
    req.charge_id = Some("ch 1/é".to_string());
    assert_eq!(
        processor.process_refund(&req, None),
        Step::Call(post(
            "https://api.stripe.com/v1/refunds",
            "sk_3",
            "amount=0&charge=ch+1%2F%C3%A9",
        ))
    );
    req.amount = Some(250);
    req.charge_id = Some("ch_1".to_string());
    assert_eq!(
        processor.process_refund(&req, None),
        Step::Call(post(
            "https://api.stripe.com/v1/refunds",
            "sk_3",
            "amount=250&charge=ch_1",
        ))
    );
}

#[test]
fn refund_maps_the_remote_answer() {
    let processor = StripeRefundProcessor::new("sk_3".to_string());
    let mut req = request("REFUND");
    req.charge_id = Some("ch_1".to_string());
    let ok = replied(
        200,
        object(vec![
            ("id", text("re_1")),
            ("amount", JsonValue::Integer(250)),
            ("currency", text("eur")),
        ]),
    );
    assert_eq!(
        processor.process_refund(&req, Some(&ok)),
        Step::Done(Ok(RefundResponse {
            status: "success".to_string(),
            message: None,
            refund_id: Some("re_1".to_string()),
            amount: Some(250),
            currency: Some("eur".to_string()),
            status_code: 200,
        }))
    );
}

#[test]
fn status_needs_one_identifier() {
    let processor = StripeStatusProcessor::new("sk_1".to_string());
    let req = request("STATUS");
    assert_eq!(
        processor.process_status(&req, None),
        invalid("Charge ID or Session ID required")
    );
}

#[test]
fn status_prefers_the_charge() {
    let processor = StripeStatusProcessor::new("sk_4".to_string());
    let mut req = request("STATUS");
    req.charge_id = Some("ch_9".to_string());
    req.session_id = Some("cs_9".to_string());
    assert_eq!(
        processor.process_status(&req, None),
        Step::Call(get("https://api.stripe.com/v1/charges/ch_9", "sk_4"))
    );
    let ok = replied(200, object(vec![("status", text("succeeded"))]));
    assert_eq!(
        processor.process_status(&req, Some(&ok)),
        Step::Done(Ok(PaymentStatusResponse {
            status: "success".to_string(),
            message: None,
            payment_id: Some("ch_9".to_string()),
            payment_status: Some("succeeded".to_string()),
            amount: None,
            currency: None,
            status_code: 200,
        }))
    );
}

#[test]
fn status_reads_the_session_when_there_is_no_charge() {
    let processor = StripeStatusProcessor::new("sk_4".to_string());
    let mut req = request("STATUS");
    req.session_id = Some("cs test/1".to_string());
    assert_eq!(
        processor.process_status(&req, None),
        Step::Call(get(
            "https://api.stripe.com/v1/checkout/sessions/cs%20test%2F1",
            "sk_4"
        ))
    );
    let ok = replied(
        200,
        object(vec![
            ("status", text("complete")),
            ("amount_total", JsonValue::Integer(990)),
            ("currency", text("gbp")),
        ]),
    );
    assert_eq!(
        processor.process_status(&req, Some(&ok)),
        Step::Done(Ok(PaymentStatusResponse {
            status: "success".to_string(),
            message: None,
            payment_id: Some("cs test/1".to_string()),
            payment_status: Some("complete".to_string()),
            amount: Some(990),
            currency: Some("gbp".to_string()),
            status_code: 200,
        }))
    );
}

#[test]
fn status_takes_the_amount_before_the_total() {
    let processor = StripeStatusProcessor::new("sk_4".to_string());
    let mut req = request("STATUS");
    req.charge_id = Some("ch_1".to_string());
    let both = replied(
        200,
        object(vec![
            ("amount_total", JsonValue::Integer(2)),
            ("amount", JsonValue::Integer(1)),
        ]),
    );
    match processor.process_status(&req, Some(&both)) {
        Step::Done(Ok(response)) => assert_eq!(response.amount, Some(1)),
        other => panic!("unexpected step: {:?}", other),
    }
    let mistyped = replied(
        200,
        object(vec![
            ("amount", text("1")),
            ("amount_total", JsonValue::Integer(2)),
        ]),
    );
    match processor.process_status(&req, Some(&mistyped)) {
        Step::Done(Ok(response)) => assert_eq!(response.amount, Some(2)),
        other => panic!("unexpected step: {:?}", other),
    }
}

#[test]
fn webhook_needs_event_id_and_type() {
    let processor = StripeWebhookProcessor::new("sk_1".to_string());
    let mut req = request("WEBHOOK");
    assert_eq!(
        processor.process_webhook(&req),
        Err(GatewayError::InvalidRequest(
            "Webhook event data required".to_string()
        ))
    );
    req.webhook_event = Some(vec![("type".to_string(), text("charge.succeeded"))]);
    assert_eq!(
        processor.process_webhook(&req),
        Err(GatewayError::InvalidRequest(
            "Webhook event ID required".to_string()
        ))
    );
    req.webhook_event = Some(vec![
        ("id".to_string(), JsonValue::Integer(1)),
        ("type".to_string(), text("charge.succeeded")),
    ]);
    assert_eq!(
        processor.process_webhook(&req),
        Err(GatewayError::InvalidRequest(
            "Webhook event ID required".to_string()
        ))
    );
    req.webhook_event = Some(vec![("id".to_string(), text("evt_1"))]);
    assert_eq!(
        processor.process_webhook(&req),
        Err(GatewayError::InvalidRequest(
            "Webhook event type required".to_string()
        ))
    );
}

#[test]
fn webhook_gives_the_event_id_back() {
    let processor = StripeWebhookProcessor::new("sk_1".to_string());
    let mut req = request("WEBHOOK");
    req.webhook_event = Some(vec![
        ("type".to_string(), text("charge.succeeded")),
        ("id".to_string(), text("evt_1")),
        ("data".to_string(), JsonValue::Null),
    ]);
    assert_eq!(
        processor.process_webhook(&req),
        Ok(WebhookResponse {
            status: "success".to_string(),
            message: None,
            event_id: Some("evt_1".to_string()),
            status_code: 200,
        })
    );
}
