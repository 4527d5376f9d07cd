//! The five operations: what each asks of the request, what it sends to
//! the remote API, and what it makes of the answer.

use crate::encoding::{form_encode, form_encoded, pairs_view, url_encode, url_encoded};
use crate::errors::{outcome_view, ErrorKind, Failure, GatewayError};
use crate::json::{find_member, member, members_view, opt_text, Json, JsonValue};
use crate::models::{
    ChargeResponse, ChargeResponseView, PaymentLinkResponse, PaymentLinkResponseView,
    PaymentRequest, PaymentRequestView, PaymentStatusResponse, PaymentStatusResponseView,
    RefundResponse, RefundResponseView, WebhookResponse, WebhookResponseView,
};
use crate::remote::{
    arrived, HttpMethod, HttpReply, HttpReplyView, HttpRequest, HttpRequestView, RemoteOutcome,
    RemoteOutcomeView, Step, StepView,
};
use crate::text::{decimal, int_decimal, join};
use vstd::prelude::*;
use vstd::string::*;

verus! {

/// A text that may be missing, with the empty text standing for a missing
/// one.
pub open spec fn or_empty(text: Option<Seq<char>>) -> Seq<char> {
    match text {
        Some(t) => t,
        None => Seq::empty(),
    }
}

/// An amount that may be missing, with zero standing for a missing one.
pub open spec fn or_zero(amount: Option<i64>) -> i64 {
    match amount {
        Some(a) => a,
        None => 0,
    }
}

/// The header that carries the tenant's key.
pub open spec fn bearer(api_key: Seq<char>) -> (Seq<char>, Seq<char>) {
    ("Authorization"@, "Bearer "@ + api_key)
}

/// The header that names the form encoding.
pub open spec fn form_content() -> (Seq<char>, Seq<char>) {
    ("Content-Type"@, "application/x-www-form-urlencoded"@)
}

/// A POST of a form-encoded body.
pub open spec fn post_form(api_key: Seq<char>, url: Seq<char>, body: Seq<char>) -> HttpRequestView {
    HttpRequestView {
        method: HttpMethod::Post,
        url,
        headers: seq![bearer(api_key), form_content()],
        body: Some(body),
    }
}

/// A GET.
pub open spec fn get_from(api_key: Seq<char>, url: Seq<char>) -> HttpRequestView {
    HttpRequestView { method: HttpMethod::Get, url, headers: seq![bearer(api_key)], body: None }
}

/// Whether a status is one of success: 200 to 299.
pub open spec fn is_success(status: u16) -> bool {
    200 <= status < 300
}

/// What the remote API said went wrong: the string at `error.message` of
/// the body, or a general message where there is none.
pub open spec fn remote_message(body: Json) -> Seq<char> {
    match body.field("error"@).str_field("message"@) {
        Some(message) => message,
        None => "Unknown Stripe error"@,
    }
}

/// The body of an answer with a status of success; for any other status an
/// invalid request with the remote API's message.
pub open spec fn reply_body(reply: HttpReplyView) -> Result<Json, Failure> {
    if is_success(reply.status) {
        Ok(reply.body)
    } else {
        Err(Failure::invalid_request(remote_message(reply.body)))
    }
}

/// The body that a call ended with, or the failure that it ended in.
pub open spec fn outcome_body(outcome: RemoteOutcomeView) -> Result<Json, Failure> {
    match outcome {
        RemoteOutcomeView::Replied(reply) => reply_body(reply),
        RemoteOutcomeView::Failed(message) => Err(
            Failure { kind: ErrorKind::StripeError, detail: message },
        ),
    }
}

/// The body of an answer of the remote API, or the failure that the answer
/// stands for.
pub fn handle_stripe_response(reply: &HttpReply) -> (r: Result<&JsonValue, GatewayError>)
    ensures
        match r {
            Ok(body) => reply_body(reply@) == Ok::<Json, Failure>(body@),
            Err(error) => reply_body(reply@) == Err::<Json, Failure>(error@),
        },
{
    if 200 <= reply.status && reply.status < 300 {
        Ok(&reply.body)
    } else {
        let message = match reply.body.get("error") {
            Some(error) => match error.str_field("message") {
                Some(text) => text.to_owned(),
                None => "Unknown Stripe error".to_owned(),
            },
            None => "Unknown Stripe error".to_owned(),
        };
        Err(GatewayError::InvalidRequest(message))
    }
}

/// The body that a call ended with, or the failure that it ended in.
pub fn outcome_of(outcome: &RemoteOutcome) -> (r: Result<&JsonValue, GatewayError>)
    ensures
        match r {
            Ok(body) => outcome_body(outcome@) == Ok::<Json, Failure>(body@),
            Err(error) => outcome_body(outcome@) == Err::<Json, Failure>(error@),
        },
{
    match outcome {
        RemoteOutcome::Replied(reply) => handle_stripe_response(reply),
        RemoteOutcome::Failed(message) => Err(GatewayError::StripeError(message.clone())),
    }
}

fn text_or_empty(text: &Option<String>) -> (r: &str)
    ensures
        r@ == or_empty(opt_text(*text)),
{
    match text {
        Some(t) => t.as_str(),
        None => {
            proof {
                reveal_strlit("");
            }
            ""
        },
    }
}

fn amount_or_zero(amount: Option<i64>) -> (r: i64)
    ensures
        r == or_zero(amount),
{
    match amount {
        Some(a) => a,
        None => 0,
    }
}

fn copy_found(text: Option<&str>) -> (r: Option<String>)
    ensures
        match text {
            Some(t) => opt_text(r) == Some(t@),
            None => r is None,
        },
{
    match text {
        Some(t) => Some(t.to_owned()),
        None => None,
    }
}

fn invalid_request(detail: &str) -> (r: GatewayError)
    ensures
        r@ == Failure::invalid_request(detail@),
{
    GatewayError::InvalidRequest(detail.to_owned())
}

fn pair_of(name: &str, value: &str) -> (r: (String, String))
    ensures
        r.0@ == name@,
        r.1@ == value@,
{
    (name.to_owned(), value.to_owned())
}

fn bearer_header(api_key: &str) -> (r: (String, String))
    ensures
        (r.0@, r.1@) == bearer(api_key@),
{
    ("Authorization".to_owned(), join("Bearer ", api_key))
}

fn send_form(api_key: &str, url: &str, body: String) -> (r: HttpRequest)
    ensures
        r@ == post_form(api_key@, url@, body@),
{
    let mut headers: Vec<(String, String)> = Vec::new();
    headers.push(bearer_header(api_key));
    headers.push(pair_of("Content-Type", "application/x-www-form-urlencoded"));
    assert(pairs_view(headers@) =~= seq![bearer(api_key@), form_content()]);
    HttpRequest { method: HttpMethod::Post, url: url.to_owned(), headers, body: Some(body) }
}

fn fetch(api_key: &str, url: String) -> (r: HttpRequest)
    ensures
        r@ == get_from(api_key@, url@),
{
    let mut headers: Vec<(String, String)> = Vec::new();
    headers.push(bearer_header(api_key));
    assert(pairs_view(headers@) =~= seq![bearer(api_key@)]);
    HttpRequest { method: HttpMethod::Get, url, headers, body: None }
}

/// The form that a charge is created with.
pub open spec fn charge_form(request: PaymentRequestView) -> Seq<char> {
    "amount="@ + url_encoded(int_decimal(or_zero(request.amount) as int)) + "&currency="@
        + url_encoded(or_empty(request.currency)) + "&source="@ + url_encoded(
        or_empty(request.payment_token),
    ) + "&description="@ + url_encoded(or_empty(request.description))
}

/// The call that creates a charge.
pub open spec fn charge_call(api_key: Seq<char>, request: PaymentRequestView) -> HttpRequestView {
    post_form(api_key, "https://api.stripe.com/v1/charges"@, charge_form(request))
}

/// The result of a charge that the remote API answered with `body`.
pub open spec fn charge_response(body: Json) -> ChargeResponseView {
    ChargeResponseView {
        status: "success"@,
        message: None,
        charge_id: body.str_field("id"@),
        amount: body.int_field("amount"@),
        currency: body.str_field("currency"@),
        status_code: 200,
    }
}

/// The step of a charge. A request without a payment token is refused
/// before anything is sent.
pub open spec fn charge_step(
    api_key: Seq<char>,
    request: PaymentRequestView,
    outcome: Option<RemoteOutcomeView>,
) -> StepView<HttpRequestView, ChargeResponseView> {
    if request.payment_token is None {
        StepView::Done(Err(Failure::invalid_request("Payment token is required"@)))
    } else {
        match outcome {
            None => StepView::Call(charge_call(api_key, request)),
            Some(o) => StepView::Done(
                match outcome_body(o) {
                    Ok(body) => Ok(charge_response(body)),
                    Err(failure) => Err(failure),
                },
            ),
        }
    }
}

/// Creates charges.
pub trait ChargeProcessor {
    /// One step of a charge. Without an outcome of the remote call it says
    /// what is to be sent; with one it gives the result. A request without
    /// a payment token is refused either way.
    fn process_charge(
        &self,
        request: &PaymentRequest,
        outcome: Option<&RemoteOutcome>,
    ) -> (r: Step<HttpRequest, ChargeResponse>)
        ensures
            outcome is Some ==> r is Done,
            request@.payment_token is None ==> r@ == StepView::<
                HttpRequestView,
                ChargeResponseView,
            >::Done(Err(Failure::invalid_request("Payment token is required"@))),
    ;
}

/// Creates charges at the remote API with a tenant's key.
pub struct StripeChargeProcessor {
    api_key: String,
}

impl StripeChargeProcessor {
    /// The key that the processor's calls carry.
    pub closed spec fn key(&self) -> Seq<char> {
        self.api_key@
    }

    /// A processor whose calls carry `api_key`.
    pub fn new(api_key: String) -> (r: Self)
        ensures
            r.key() == api_key@,
    {
        StripeChargeProcessor { api_key }
    }
}

impl ChargeProcessor for StripeChargeProcessor {
    fn process_charge(
        &self,
        request: &PaymentRequest,
        outcome: Option<&RemoteOutcome>,
    ) -> (r: Step<HttpRequest, ChargeResponse>)
        ensures
            r@ == charge_step(self.key(), request@, arrived(outcome)),
    {
        if request.payment_token.is_none() {
            return Step::Done(Err(invalid_request("Payment token is required")));
        }
        match outcome {
            None => {
                let amount = decimal(amount_or_zero(request.amount));
                let mut form = join("amount=", url_encode(amount.as_str()).as_str());
                form.append("&currency=");
                form.append(url_encode(text_or_empty(&request.currency)).as_str());
                form.append("&source=");
                form.append(url_encode(text_or_empty(&request.payment_token)).as_str());
                form.append("&description=");
                form.append(url_encode(text_or_empty(&request.description)).as_str());
                Step::Call(
                    send_form(self.api_key.as_str(), "https://api.stripe.com/v1/charges", form),
                )
            },
            Some(o) => match outcome_of(o) {
                Ok(body) => Step::Done(
                    Ok(
                        ChargeResponse {
                            status: "success".to_owned(),
                            message: None,
                            charge_id: copy_found(body.str_field("id")),
                            amount: body.int_field("amount"),
                            currency: copy_found(body.str_field("currency")),
                            status_code: 200,
                        },
                    ),
                ),
                Err(error) => Step::Done(Err(error)),
            },
        }
    }
}

/// The named values that a checkout session is created with: one line item
/// of quantity one, priced in the request's currency at the request's
/// amount and named by its description, and the two URLs. A nested value
/// is named by its path, each step after the first in square brackets.
pub open spec fn payment_link_pairs(request: PaymentRequestView) -> Seq<(Seq<char>, Seq<char>)> {
    seq![
        ("cancel_url"@, or_empty(request.cancel_url)),
        ("line_items[0][price_data][currency]"@, or_empty(request.currency)),
        ("line_items[0][price_data][product_data][name]"@, or_empty(request.description)),
        (
            "line_items[0][price_data][unit_amount]"@,
            int_decimal(or_zero(request.amount) as int),
        ),
        ("line_items[0][quantity]"@, "1"@),
        ("mode"@, "payment"@),
        ("success_url"@, or_empty(request.success_url)),
    ]
}

/// The call that creates a checkout session.
pub open spec fn payment_link_call(
    api_key: Seq<char>,
    request: PaymentRequestView,
) -> HttpRequestView {
    post_form(
        api_key,
        "https://api.stripe.com/v1/checkout/sessions"@,
        form_encoded(payment_link_pairs(request)),
    )
}

/// The result of a checkout session that the remote API answered with
/// `body`.
pub open spec fn payment_link_response(body: Json) -> PaymentLinkResponseView {
    PaymentLinkResponseView {
        status: "success"@,
        message: None,
        payment_link: body.str_field("url"@),
        status_code: 200,
    }
}

/// The step of a payment link. A request without both URLs is refused
/// before anything is sent.
pub open spec fn payment_link_step(
    api_key: Seq<char>,
    request: PaymentRequestView,
    outcome: Option<RemoteOutcomeView>,
) -> StepView<HttpRequestView, PaymentLinkResponseView> {
    if request.success_url is None || request.cancel_url is None {
        StepView::Done(Err(Failure::invalid_request("Success and cancel URLs are required"@)))
    } else {
        match outcome {
            None => StepView::Call(payment_link_call(api_key, request)),
            Some(o) => StepView::Done(
                match outcome_body(o) {
                    Ok(body) => Ok(payment_link_response(body)),
                    Err(failure) => Err(failure),
                },
            ),
        }
    }
}

/// Creates payment links.
pub trait PaymentLinkProcessor {
    /// One step of a payment link. Without an outcome of the remote call it
    /// says what is to be sent; with one it gives the result. A request
    /// without both URLs is refused either way.
    fn process_payment_link(
        &self,
        request: &PaymentRequest,
        outcome: Option<&RemoteOutcome>,
    ) -> (r: Step<HttpRequest, PaymentLinkResponse>)
        ensures
            outcome is Some ==> r is Done,
            request@.success_url is None || request@.cancel_url is None ==> r@ == StepView::<
                HttpRequestView,
                PaymentLinkResponseView,
            >::Done(Err(Failure::invalid_request("Success and cancel URLs are required"@))),
    ;
}

/// Creates checkout sessions at the remote API with a tenant's key.
pub struct StripePaymentLinkProcessor {
    api_key: String,
}

impl StripePaymentLinkProcessor {
    /// The key that the processor's calls carry.
    pub closed spec fn key(&self) -> Seq<char> {
        self.api_key@
    }

    /// A processor whose calls carry `api_key`.
    pub fn new(api_key: String) -> (r: Self)
        ensures
            r.key() == api_key@,
    {
        StripePaymentLinkProcessor { api_key }
    }
}

impl PaymentLinkProcessor for StripePaymentLinkProcessor {
    fn process_payment_link(
        &self,
        request: &PaymentRequest,
        outcome: Option<&RemoteOutcome>,
    ) -> (r: Step<HttpRequest, PaymentLinkResponse>)
        ensures
            r@ == payment_link_step(self.key(), request@, arrived(outcome)),
    {
        if request.success_url.is_none() || request.cancel_url.is_none() {
            return Step::Done(Err(invalid_request("Success and cancel URLs are required")));
        }
        match outcome {
            None => {
                let amount = decimal(amount_or_zero(request.amount));
                let mut pairs: Vec<(String, String)> = Vec::new();
                pairs.push(pair_of("cancel_url", text_or_empty(&request.cancel_url)));
                pairs.push(
                    pair_of(
                        "line_items[0][price_data][currency]",
                        text_or_empty(&request.currency),
                    ),
                );
                pairs.push(
                    pair_of(
                        "line_items[0][price_data][product_data][name]",
                        text_or_empty(&request.description),
                    ),
                );
                pairs.push(pair_of("line_items[0][price_data][unit_amount]", amount.as_str()));
                pairs.push(pair_of("line_items[0][quantity]", "1"));
                pairs.push(pair_of("mode", "payment"));
                pairs.push(pair_of("success_url", text_or_empty(&request.success_url)));
                assert(pairs_view(pairs@) =~= payment_link_pairs(request@));
                match form_encode(&pairs) {
                    Ok(form) => Step::Call(
                        send_form(
                            self.api_key.as_str(),
                            "https://api.stripe.com/v1/checkout/sessions",
                            form,
                        ),
                    ),
                    Err(message) => Step::Done(Err(GatewayError::SerializationError(message))),
                }
            },
            Some(o) => match outcome_of(o) {
                Ok(body) => Step::Done(
                    Ok(
                        PaymentLinkResponse {
                            status: "success".to_owned(),
                            message: None,
                            payment_link: copy_found(body.str_field("url")),
                            status_code: 200,
                        },
                    ),
                ),
                Err(error) => Step::Done(Err(error)),
            },
        }
    }
}

/// The named values that a refund is created with.
pub open spec fn refund_pairs(request: PaymentRequestView) -> Seq<(Seq<char>, Seq<char>)> {
    seq![
        ("amount"@, int_decimal(or_zero(request.amount) as int)),
        ("charge"@, or_empty(request.charge_id)),
    ]
}

/// The call that creates a refund.
pub open spec fn refund_call(api_key: Seq<char>, request: PaymentRequestView) -> HttpRequestView {
    post_form(api_key, "https://api.stripe.com/v1/refunds"@, form_encoded(refund_pairs(request)))
}

/// The result of a refund that the remote API answered with `body`.
pub open spec fn refund_response(body: Json) -> RefundResponseView {
    RefundResponseView {
        status: "success"@,
        message: None,
        refund_id: body.str_field("id"@),
        amount: body.int_field("amount"@),
        currency: body.str_field("currency"@),
        status_code: 200,
    }
}

/// The step of a refund. A request without a charge identifier is refused
/// before anything is sent.
pub open spec fn refund_step(
    api_key: Seq<char>,
    request: PaymentRequestView,
    outcome: Option<RemoteOutcomeView>,
) -> StepView<HttpRequestView, RefundResponseView> {
    if request.charge_id is None {
        StepView::Done(Err(Failure::invalid_request("Charge ID is required"@)))
    } else {
        match outcome {
            None => StepView::Call(refund_call(api_key, request)),
            Some(o) => StepView::Done(
                match outcome_body(o) {
                    Ok(body) => Ok(refund_response(body)),
                    Err(failure) => Err(failure),
                },
            ),
        }
    }
}

/// Creates refunds.
pub trait RefundProcessor {
    /// One step of a refund. Without an outcome of the remote call it says
    /// what is to be sent; with one it gives the result. A request without
    /// a charge identifier is refused either way.
    fn process_refund(
        &self,
        request: &PaymentRequest,
        outcome: Option<&RemoteOutcome>,
    ) -> (r: Step<HttpRequest, RefundResponse>)
        ensures
            outcome is Some ==> r is Done,
            request@.charge_id is None ==> r@ == StepView::<
                HttpRequestView,
                RefundResponseView,
            >::Done(Err(Failure::invalid_request("Charge ID is required"@))),
    ;
}

/// Creates refunds at the remote API with a tenant's key.
pub struct StripeRefundProcessor {
    api_key: String,
}

impl StripeRefundProcessor {
    /// The key that the processor's calls carry.
    pub closed spec fn key(&self) -> Seq<char> {
        self.api_key@
    }

    /// A processor whose calls carry `api_key`.
    pub fn new(api_key: String) -> (r: Self)
        ensures
            r.key() == api_key@,
    {
        StripeRefundProcessor { api_key }
    }
}

impl RefundProcessor for StripeRefundProcessor {
    fn process_refund(
        &self,
        request: &PaymentRequest,
        outcome: Option<&RemoteOutcome>,
    ) -> (r: Step<HttpRequest, RefundResponse>)
        ensures
            r@ == refund_step(self.key(), request@, arrived(outcome)),
    {
        if request.charge_id.is_none() {
            return Step::Done(Err(invalid_request("Charge ID is required")));
        }
        match outcome {
            None => {
                let amount = decimal(amount_or_zero(request.amount));
                let mut pairs: Vec<(String, String)> = Vec::new();
                pairs.push(pair_of("amount", amount.as_str()));
                pairs.push(pair_of("charge", text_or_empty(&request.charge_id)));
                assert(pairs_view(pairs@) =~= refund_pairs(request@));
                match form_encode(&pairs) {
                    Ok(form) => Step::Call(
                        send_form(self.api_key.as_str(), "https://api.stripe.com/v1/refunds", form),
                    ),
                    Err(message) => Step::Done(Err(GatewayError::SerializationError(message))),
                }
            },
            Some(o) => match outcome_of(o) {
                Ok(body) => Step::Done(
                    Ok(
                        RefundResponse {
                            status: "success".to_owned(),
                            message: None,
                            refund_id: copy_found(body.str_field("id")),
                            amount: body.int_field("amount"),
                            currency: copy_found(body.str_field("currency")),
                            status_code: 200,
                        },
                    ),
                ),
                Err(error) => Step::Done(Err(error)),
            },
        }
    }
}

/// The identifier that a status query is about: the charge's where the
/// request has one, else the session's.
pub open spec fn status_subject(request: PaymentRequestView) -> Seq<char> {
    match request.charge_id {
        Some(charge_id) => charge_id,
        None => or_empty(request.session_id),
    }
}

/// The address that a status query reads: that of the charge where the
/// request has a charge identifier, else that of the checkout session.
pub open spec fn status_url(request: PaymentRequestView) -> Seq<char> {
    match request.charge_id {
        Some(charge_id) => "https://api.stripe.com/v1/charges/"@ + url_encoded(charge_id),
        None => "https://api.stripe.com/v1/checkout/sessions/"@ + url_encoded(
            or_empty(request.session_id),
        ),
    }
}

/// The call that reads the status of a payment.
pub open spec fn status_call(api_key: Seq<char>, request: PaymentRequestView) -> HttpRequestView {
    get_from(api_key, status_url(request))
}

/// The amount in the body of a status answer: that of a charge, or the
/// total of a session where the body has no amount.
pub open spec fn status_amount(body: Json) -> Option<i64> {
    match body.int_field("amount"@) {
        Some(amount) => Some(amount),
        None => body.int_field("amount_total"@),
    }
}

/// The result of a status query that the remote API answered with `body`.
pub open spec fn status_response(
    request: PaymentRequestView,
    body: Json,
) -> PaymentStatusResponseView {
    PaymentStatusResponseView {
        status: "success"@,
        message: None,
        payment_id: Some(status_subject(request)),
        payment_status: body.str_field("status"@),
        amount: status_amount(body),
        currency: body.str_field("currency"@),
        status_code: 200,
    }
}

/// The step of a status query. A request with neither identifier is
/// refused before anything is sent.
pub open spec fn status_step(
    api_key: Seq<char>,
    request: PaymentRequestView,
    outcome: Option<RemoteOutcomeView>,
) -> StepView<HttpRequestView, PaymentStatusResponseView> {
    if request.charge_id is None && request.session_id is None {
        StepView::Done(Err(Failure::invalid_request("Charge ID or Session ID required"@)))
    } else {
        match outcome {
            None => StepView::Call(status_call(api_key, request)),
            Some(o) => StepView::Done(
                match outcome_body(o) {
                    Ok(body) => Ok(status_response(request, body)),
                    Err(failure) => Err(failure),
                },
            ),
        }
    }
}

/// Reads the status of payments.
pub trait StatusProcessor {
    /// One step of a status query. Without an outcome of the remote call it
    /// says what is to be sent; with one it gives the result. A request
    /// with neither identifier is refused either way.
    fn process_status(
        &self,
        request: &PaymentRequest,
        outcome: Option<&RemoteOutcome>,
    ) -> (r: Step<HttpRequest, PaymentStatusResponse>)
        ensures
            outcome is Some ==> r is Done,
            request@.charge_id is None && request@.session_id is None ==> r@ == StepView::<
                HttpRequestView,
                PaymentStatusResponseView,
            >::Done(Err(Failure::invalid_request("Charge ID or Session ID required"@))),
    ;
}

/// Reads charges and checkout sessions at the remote API with a tenant's key.
pub struct StripeStatusProcessor {
    api_key: String,
}

impl StripeStatusProcessor {
    /// The key that the processor's calls carry.
    pub closed spec fn key(&self) -> Seq<char> {
        self.api_key@
    }

    /// A processor whose calls carry `api_key`.
    pub fn new(api_key: String) -> (r: Self)
        ensures
            r.key() == api_key@,
    {
        StripeStatusProcessor { api_key }
    }
}

impl StatusProcessor for StripeStatusProcessor {
    fn process_status(
        &self,
        request: &PaymentRequest,
        outcome: Option<&RemoteOutcome>,
    ) -> (r: Step<HttpRequest, PaymentStatusResponse>)
        ensures
            r@ == status_step(self.key(), request@, arrived(outcome)),
            request@.charge_id is Some && outcome is None ==> r@ == StepView::<
                HttpRequestView,
                PaymentStatusResponseView,
            >::Call(
                get_from(
                    self.key(),
                    "https://api.stripe.com/v1/charges/"@ + url_encoded(request@.charge_id->Some_0),
                ),
            ),
    {
        if request.charge_id.is_none() && request.session_id.is_none() {
            return Step::Done(Err(invalid_request("Charge ID or Session ID required")));
        }
        match outcome {
            None => {
                let url = match &request.charge_id {
                    Some(charge_id) => join(
                        "https://api.stripe.com/v1/charges/",
                        url_encode(charge_id.as_str()).as_str(),
                    ),
                    None => join(
                        "https://api.stripe.com/v1/checkout/sessions/",
                        url_encode(text_or_empty(&request.session_id)).as_str(),
                    ),
                };
                Step::Call(fetch(self.api_key.as_str(), url))
            },
            Some(o) => match outcome_of(o) {
                Ok(body) => {
                    let payment_id = match &request.charge_id {
                        Some(charge_id) => charge_id.clone(),
                        None => text_or_empty(&request.session_id).to_owned(),
                    };
                    let amount = match body.int_field("amount") {
                        Some(amount) => Some(amount),
                        None => body.int_field("amount_total"),
                    };
                    Step::Done(
                        Ok(
                            PaymentStatusResponse {
                                status: "success".to_owned(),
                                message: None,
                                payment_id: Some(payment_id),
                                payment_status: copy_found(body.str_field("status")),
                                amount,
                                currency: copy_found(body.str_field("currency")),
                                status_code: 200,
                            },
                        ),
                    )
                },
                Err(error) => Step::Done(Err(error)),
            },
        }
    }
}

/// The text of the string member named `key` of a webhook event.
pub open spec fn event_text(event: Seq<(Seq<char>, Json)>, key: Seq<char>) -> Option<Seq<char>> {
    match member(event, key) {
        Some(value) => value.as_str(),
        None => None,
    }
}

/// The result of taking in a webhook event: its `id` and `type` must be
/// strings, and the `id` is given back.
pub open spec fn webhook_result(request: PaymentRequestView) -> Result<
    WebhookResponseView,
    Failure,
> {
    match request.webhook_event {
        None => Err(Failure::invalid_request("Webhook event data required"@)),
        Some(event) => match event_text(event, "id"@) {
            None => Err(Failure::invalid_request("Webhook event ID required"@)),
            Some(id) => match event_text(event, "type"@) {
                None => Err(Failure::invalid_request("Webhook event type required"@)),
                Some(_) => Ok(
                    WebhookResponseView {
                        status: "success"@,
                        message: None,
                        event_id: Some(id),
                        status_code: 200,
                    },
                ),
            },
        },
    }
}

/// Takes in webhook events.
pub trait WebhookProcessor {
    /// Takes in the request's webhook event: its `id` and `type` must be
    /// strings, and the `id` is given back. Nothing is sent.
    fn process_webhook(
        &self,
        request: &PaymentRequest,
    ) -> (r: Result<WebhookResponse, GatewayError>)
        ensures
            outcome_view(r) == webhook_result(request@),
    ;
}

/// Takes in the events that the remote API sends.
pub struct StripeWebhookProcessor {
    _api_key: String,
}

impl StripeWebhookProcessor {
    /// The key that the processor was made with.
    pub closed spec fn key(&self) -> Seq<char> {
        self._api_key@
    }

    /// A processor whose calls carry `api_key`.
    pub fn new(api_key: String) -> (r: Self)
        ensures
            r.key() == api_key@,
    {
        StripeWebhookProcessor { _api_key: api_key }
    }
}

fn event_member<'a>(event: &'a Vec<(String, JsonValue)>, key: &str) -> (r: Option<&'a str>)
    ensures
        match r {
            Some(text) => event_text(members_view(event@), key@) == Some(text@),
            None => event_text(members_view(event@), key@) is None,
        },
{
    match find_member(event, key) {
        Some(value) => value.as_str(),
        None => None,
    }
}

impl WebhookProcessor for StripeWebhookProcessor {
    fn process_webhook(
        &self,
        request: &PaymentRequest,
    ) -> (r: Result<WebhookResponse, GatewayError>) {
        let event = match &request.webhook_event {
            Some(event) => event,
            None => { return Err(invalid_request("Webhook event data required")); },
        };
        let event_id = match event_member(event, "id") {
            Some(id) => id,
            None => { return Err(invalid_request("Webhook event ID required")); },
        };
        if event_member(event, "type").is_none() {
            return Err(invalid_request("Webhook event type required"));
        }
        Ok(
            WebhookResponse {
                status: "success".to_owned(),
                message: None,
                event_id: Some(event_id.to_owned()),
                status_code: 200,
            },
        )
    }
}

} // verus!
