//! The payment request and the typed results of the five operations, each
//! with its model and its JSON form.

use crate::json::{
    copy_members, lemma_member_at, member_of, members_view, opt_int_json, opt_text,
    opt_text_json, Json, JsonValue,
};
use vstd::prelude::*;

verus! {

/// The members of an object that may be missing, as their model.
pub open spec fn opt_members(members: Option<Vec<(String, JsonValue)>>) -> Option<
    Seq<(Seq<char>, Json)>,
> {
    match members {
        Some(m) => Some(members_view(m@)),
        None => None,
    }
}

/// The document for members that may be missing: an object, or `Null`.
pub open spec fn opt_members_json(members: Option<Seq<(Seq<char>, Json)>>) -> Json {
    match members {
        Some(m) => Json::Object(m),
        None => Json::Null,
    }
}

/// A payment operation as the caller asks for it.
#[derive(Debug, PartialEq, Eq)]
pub struct PaymentRequest {
    /// The tenant on whose behalf the operation runs.
    pub store_id: String,
    /// The amount in minor currency units.
    pub amount: Option<i64>,
    pub currency: Option<String>,
    pub payment_token: Option<String>,
    pub description: Option<String>,
    /// The kind of operation, in any case.
    pub request_type: String,
    pub success_url: Option<String>,
    pub cancel_url: Option<String>,
    pub charge_id: Option<String>,
    pub session_id: Option<String>,
    /// The members of the webhook event, in the order of the payload.
    pub webhook_event: Option<Vec<(String, JsonValue)>>,
}

/// The model of a payment request.
pub struct PaymentRequestView {
    pub store_id: Seq<char>,
    pub amount: Option<i64>,
    pub currency: Option<Seq<char>>,
    pub payment_token: Option<Seq<char>>,
    pub description: Option<Seq<char>>,
    pub request_type: Seq<char>,
    pub success_url: Option<Seq<char>>,
    pub cancel_url: Option<Seq<char>>,
    pub charge_id: Option<Seq<char>>,
    pub session_id: Option<Seq<char>>,
    pub webhook_event: Option<Seq<(Seq<char>, Json)>>,
}

impl View for PaymentRequest {
    type V = PaymentRequestView;

    open spec fn view(&self) -> PaymentRequestView {
        PaymentRequestView {
            store_id: self.store_id@,
            amount: self.amount,
            currency: opt_text(self.currency),
            payment_token: opt_text(self.payment_token),
            description: opt_text(self.description),
            request_type: self.request_type@,
            success_url: opt_text(self.success_url),
            cancel_url: opt_text(self.cancel_url),
            charge_id: opt_text(self.charge_id),
            session_id: opt_text(self.session_id),
            webhook_event: opt_members(self.webhook_event),
        }
    }
}

impl PaymentRequestView {
    /// The JSON form of a request: one member for each field under its
    /// camel-case name, `Null` for a field that is missing.
    pub open spec fn to_json(self) -> Json {
        Json::Object(
            seq![
                ("storeId"@, Json::String(self.store_id)),
                ("amount"@, opt_int_json(self.amount)),
                ("currency"@, opt_text_json(self.currency)),
                ("paymentToken"@, opt_text_json(self.payment_token)),
                ("description"@, opt_text_json(self.description)),
                ("requestType"@, Json::String(self.request_type)),
                ("successUrl"@, opt_text_json(self.success_url)),
                ("cancelUrl"@, opt_text_json(self.cancel_url)),
                ("chargeId"@, opt_text_json(self.charge_id)),
                ("sessionId"@, opt_text_json(self.session_id)),
                ("webhookEvent"@, opt_members_json(self.webhook_event)),
            ],
        )
    }
}

impl PaymentRequest {
    /// The JSON form of the request.
    pub fn to_json(&self) -> (r: JsonValue)
        ensures
            r@ == self@.to_json(),
    {
        let event = match &self.webhook_event {
            Some(members) => JsonValue::Object(copy_members(members)),
            None => JsonValue::Null,
        };
        let mut members: Vec<(String, JsonValue)> = Vec::new();
        members.push(member_of("storeId", JsonValue::text(self.store_id.as_str())));
        members.push(member_of("amount", JsonValue::opt_int(self.amount)));
        members.push(member_of("currency", JsonValue::opt_text(&self.currency)));
        members.push(member_of("paymentToken", JsonValue::opt_text(&self.payment_token)));
        members.push(member_of("description", JsonValue::opt_text(&self.description)));
        members.push(member_of("requestType", JsonValue::text(self.request_type.as_str())));
        members.push(member_of("successUrl", JsonValue::opt_text(&self.success_url)));
        members.push(member_of("cancelUrl", JsonValue::opt_text(&self.cancel_url)));
        members.push(member_of("chargeId", JsonValue::opt_text(&self.charge_id)));
        members.push(member_of("sessionId", JsonValue::opt_text(&self.session_id)));
        members.push(member_of("webhookEvent", event));
        assert(members_view(members@) =~= self@.to_json()->Object_0);
        JsonValue::Object(members)
    }
}

/// The result of a charge.
#[derive(Debug, PartialEq, Eq)]
pub struct ChargeResponse {
    pub status: String,
    pub message: Option<String>,
    pub charge_id: Option<String>,
    pub amount: Option<i64>,
    pub currency: Option<String>,
    pub status_code: i32,
}

/// The model of the result of a charge.
pub struct ChargeResponseView {
    pub status: Seq<char>,
    pub message: Option<Seq<char>>,
    pub charge_id: Option<Seq<char>>,
    pub amount: Option<i64>,
    pub currency: Option<Seq<char>>,
    pub status_code: i32,
}

impl View for ChargeResponse {
    type V = ChargeResponseView;

    open spec fn view(&self) -> ChargeResponseView {
        ChargeResponseView {
            status: self.status@,
            message: opt_text(self.message),
            charge_id: opt_text(self.charge_id),
            amount: self.amount,
            currency: opt_text(self.currency),
            status_code: self.status_code,
        }
    }
}

impl ChargeResponseView {
    /// The JSON form of the result: one member for each field under its
    /// camel-case name, `Null` for a field that is missing.
    pub open spec fn to_json(self) -> Json {
        Json::Object(
            seq![
                ("status"@, Json::String(self.status)),
                ("message"@, opt_text_json(self.message)),
                ("chargeId"@, opt_text_json(self.charge_id)),
                ("amount"@, opt_int_json(self.amount)),
                ("currency"@, opt_text_json(self.currency)),
                ("statusCode"@, Json::Integer(self.status_code as i64)),
            ],
        )
    }
}

impl ChargeResponse {
    /// The JSON form of the result.
    pub fn to_json(&self) -> (r: JsonValue)
        ensures
            r@ == self@.to_json(),
    {
        let mut members: Vec<(String, JsonValue)> = Vec::new();
        members.push(member_of("status", JsonValue::text(self.status.as_str())));
        members.push(member_of("message", JsonValue::opt_text(&self.message)));
        members.push(member_of("chargeId", JsonValue::opt_text(&self.charge_id)));
        members.push(member_of("amount", JsonValue::opt_int(self.amount)));
        members.push(member_of("currency", JsonValue::opt_text(&self.currency)));
        members.push(member_of("statusCode", JsonValue::Integer(self.status_code as i64)));
        assert(members_view(members@) =~= self@.to_json()->Object_0);
        JsonValue::Object(members)
    }
}

/// The result of creating a payment link.
#[derive(Debug, PartialEq, Eq)]
pub struct PaymentLinkResponse {
    pub status: String,
    pub message: Option<String>,
    pub payment_link: Option<String>,
    pub status_code: i32,
}

/// The model of the result of creating a payment link.
pub struct PaymentLinkResponseView {
    pub status: Seq<char>,
    pub message: Option<Seq<char>>,
    pub payment_link: Option<Seq<char>>,
    pub status_code: i32,
}

impl View for PaymentLinkResponse {
    type V = PaymentLinkResponseView;

    open spec fn view(&self) -> PaymentLinkResponseView {
        PaymentLinkResponseView {
            status: self.status@,
            message: opt_text(self.message),
            payment_link: opt_text(self.payment_link),
            status_code: self.status_code,
        }
    }
}

impl PaymentLinkResponseView {
    /// The JSON form of the result: one member for each field under its
    /// camel-case name, `Null` for a field that is missing.
    pub open spec fn to_json(self) -> Json {
        Json::Object(
            seq![
                ("status"@, Json::String(self.status)),
                ("message"@, opt_text_json(self.message)),
                ("paymentLink"@, opt_text_json(self.payment_link)),
                ("statusCode"@, Json::Integer(self.status_code as i64)),
            ],
        )
    }
}

impl PaymentLinkResponse {
    /// The JSON form of the result.
    pub fn to_json(&self) -> (r: JsonValue)
        ensures
            r@ == self@.to_json(),
    {
        let mut members: Vec<(String, JsonValue)> = Vec::new();
        members.push(member_of("status", JsonValue::text(self.status.as_str())));
        members.push(member_of("message", JsonValue::opt_text(&self.message)));
        members.push(member_of("paymentLink", JsonValue::opt_text(&self.payment_link)));
        members.push(member_of("statusCode", JsonValue::Integer(self.status_code as i64)));
        assert(members_view(members@) =~= self@.to_json()->Object_0);
        JsonValue::Object(members)
    }
}

/// The result of a refund.
#[derive(Debug, PartialEq, Eq)]
pub struct RefundResponse {
    pub status: String,
    pub message: Option<String>,
    pub refund_id: Option<String>,
    pub amount: Option<i64>,
    pub currency: Option<String>,
    pub status_code: i32,
}

/// The model of the result of a refund.
pub struct RefundResponseView {
    pub status: Seq<char>,
    pub message: Option<Seq<char>>,
    pub refund_id: Option<Seq<char>>,
    pub amount: Option<i64>,
    pub currency: Option<Seq<char>>,
    pub status_code: i32,
}

impl View for RefundResponse {
    type V = RefundResponseView;

    open spec fn view(&self) -> RefundResponseView {
        RefundResponseView {
            status: self.status@,
            message: opt_text(self.message),
            refund_id: opt_text(self.refund_id),
            amount: self.amount,
            currency: opt_text(self.currency),
            status_code: self.status_code,
        }
    }
}

impl RefundResponseView {
    /// The JSON form of the result: one member for each field under its
    /// camel-case name, `Null` for a field that is missing.
    pub open spec fn to_json(self) -> Json {
        Json::Object(
            seq![
                ("status"@, Json::String(self.status)),
                ("message"@, opt_text_json(self.message)),
                ("refundId"@, opt_text_json(self.refund_id)),
                ("amount"@, opt_int_json(self.amount)),
                ("currency"@, opt_text_json(self.currency)),
                ("statusCode"@, Json::Integer(self.status_code as i64)),
            ],
        )
    }
}

impl RefundResponse {
    /// The JSON form of the result.
    pub fn to_json(&self) -> (r: JsonValue)
        ensures
            r@ == self@.to_json(),
    {
        let mut members: Vec<(String, JsonValue)> = Vec::new();
        members.push(member_of("status", JsonValue::text(self.status.as_str())));
        members.push(member_of("message", JsonValue::opt_text(&self.message)));
        members.push(member_of("refundId", JsonValue::opt_text(&self.refund_id)));
        members.push(member_of("amount", JsonValue::opt_int(self.amount)));
        members.push(member_of("currency", JsonValue::opt_text(&self.currency)));
        members.push(member_of("statusCode", JsonValue::Integer(self.status_code as i64)));
        assert(members_view(members@) =~= self@.to_json()->Object_0);
        JsonValue::Object(members)
    }
}

/// The result of a status query.
#[derive(Debug, PartialEq, Eq)]
pub struct PaymentStatusResponse {
    pub status: String,
    pub message: Option<String>,
    pub payment_id: Option<String>,
    pub payment_status: Option<String>,
    pub amount: Option<i64>,
    pub currency: Option<String>,
    pub status_code: i32,
}

/// The model of the result of a status query.
pub struct PaymentStatusResponseView {
    pub status: Seq<char>,
    pub message: Option<Seq<char>>,
    pub payment_id: Option<Seq<char>>,
    pub payment_status: Option<Seq<char>>,
    pub amount: Option<i64>,
    pub currency: Option<Seq<char>>,
    pub status_code: i32,
}

impl View for PaymentStatusResponse {
    type V = PaymentStatusResponseView;

    open spec fn view(&self) -> PaymentStatusResponseView {
        PaymentStatusResponseView {
            status: self.status@,
            message: opt_text(self.message),
            payment_id: opt_text(self.payment_id),
            payment_status: opt_text(self.payment_status),
            amount: self.amount,
            currency: opt_text(self.currency),
            status_code: self.status_code,
        }
    }
}

impl PaymentStatusResponseView {
    /// The JSON form of the result: one member for each field under its
    /// camel-case name, `Null` for a field that is missing.
    pub open spec fn to_json(self) -> Json {
        Json::Object(
            seq![
                ("status"@, Json::String(self.status)),
                ("message"@, opt_text_json(self.message)),
                ("paymentId"@, opt_text_json(self.payment_id)),
                ("paymentStatus"@, opt_text_json(self.payment_status)),
                ("amount"@, opt_int_json(self.amount)),
                ("currency"@, opt_text_json(self.currency)),
                ("statusCode"@, Json::Integer(self.status_code as i64)),
            ],
        )
    }
}

impl PaymentStatusResponse {
    /// The JSON form of the result.
    pub fn to_json(&self) -> (r: JsonValue)
        ensures
            r@ == self@.to_json(),
    {
        let mut members: Vec<(String, JsonValue)> = Vec::new();
        members.push(member_of("status", JsonValue::text(self.status.as_str())));
        members.push(member_of("message", JsonValue::opt_text(&self.message)));
        members.push(member_of("paymentId", JsonValue::opt_text(&self.payment_id)));
        members.push(member_of("paymentStatus", JsonValue::opt_text(&self.payment_status)));
        members.push(member_of("amount", JsonValue::opt_int(self.amount)));
        members.push(member_of("currency", JsonValue::opt_text(&self.currency)));
        members.push(member_of("statusCode", JsonValue::Integer(self.status_code as i64)));
        assert(members_view(members@) =~= self@.to_json()->Object_0);
        JsonValue::Object(members)
    }
}

/// The result of taking in a webhook event.
#[derive(Debug, PartialEq, Eq)]
pub struct WebhookResponse {
    pub status: String,
    pub message: Option<String>,
    pub event_id: Option<String>,
    pub status_code: i32,
}

/// The model of the result of taking in a webhook event.
pub struct WebhookResponseView {
    pub status: Seq<char>,
    pub message: Option<Seq<char>>,
    pub event_id: Option<Seq<char>>,
    pub status_code: i32,
}

impl View for WebhookResponse {
    type V = WebhookResponseView;

    open spec fn view(&self) -> WebhookResponseView {
        WebhookResponseView {
            status: self.status@,
            message: opt_text(self.message),
            event_id: opt_text(self.event_id),
            status_code: self.status_code,
        }
    }
}

impl WebhookResponseView {
    /// The JSON form of the result: one member for each field under its
    /// camel-case name, `Null` for a field that is missing.
    pub open spec fn to_json(self) -> Json {
        Json::Object(
            seq![
                ("status"@, Json::String(self.status)),
                ("message"@, opt_text_json(self.message)),
                ("eventId"@, opt_text_json(self.event_id)),
                ("statusCode"@, Json::Integer(self.status_code as i64)),
            ],
        )
    }
}

impl WebhookResponse {
    /// The JSON form of the result.
    pub fn to_json(&self) -> (r: JsonValue)
        ensures
            r@ == self@.to_json(),
    {
        let mut members: Vec<(String, JsonValue)> = Vec::new();
        members.push(member_of("status", JsonValue::text(self.status.as_str())));
        members.push(member_of("message", JsonValue::opt_text(&self.message)));
        members.push(member_of("eventId", JsonValue::opt_text(&self.event_id)));
        members.push(member_of("statusCode", JsonValue::Integer(self.status_code as i64)));
        assert(members_view(members@) =~= self@.to_json()->Object_0);
        JsonValue::Object(members)
    }
}

/// What stands in for a typed result when a stage fails.
#[derive(Debug, PartialEq, Eq)]
pub struct ErrorResponse {
    pub status: String,
    pub message: String,
    pub status_code: i32,
}

/// The model of an error result.
pub struct ErrorResponseView {
    pub status: Seq<char>,
    pub message: Seq<char>,
    pub status_code: i32,
}

impl View for ErrorResponse {
    type V = ErrorResponseView;

    open spec fn view(&self) -> ErrorResponseView {
        ErrorResponseView {
            status: self.status@,
            message: self.message@,
            status_code: self.status_code,
        }
    }
}

impl ErrorResponseView {
    /// The JSON form of the result: one member for each field under its
    /// camel-case name, `Null` for a field that is missing.
    pub open spec fn to_json(self) -> Json {
        Json::Object(
            seq![
                ("status"@, Json::String(self.status)),
                ("message"@, Json::String(self.message)),
                ("statusCode"@, Json::Integer(self.status_code as i64)),
            ],
        )
    }
}

impl ErrorResponse {
    /// The JSON form of the error result.
    pub fn to_json(&self) -> (r: JsonValue)
        ensures
            r@ == self@.to_json(),
    {
        let mut members: Vec<(String, JsonValue)> = Vec::new();
        members.push(member_of("status", JsonValue::text(self.status.as_str())));
        members.push(member_of("message", JsonValue::text(self.message.as_str())));
        members.push(member_of("statusCode", JsonValue::Integer(self.status_code as i64)));
        assert(members_view(members@) =~= self@.to_json()->Object_0);
        JsonValue::Object(members)
    }
}

/// The names of the members of a result other than `statusCode` differ
/// from it in length.
proof fn lemma_member_names()
    ensures
        "statusCode"@.len() == 10,
        "status"@.len() == 6,
        "message"@.len() == 7,
        "chargeId"@.len() == 8,
        "amount"@.len() == 6,
        "currency"@.len() == 8,
        "paymentLink"@.len() == 11,
        "refundId"@.len() == 8,
        "paymentId"@.len() == 9,
        "paymentStatus"@.len() == 13,
        "eventId"@.len() == 7,
{
    reveal_strlit("statusCode");
    reveal_strlit("status");
    reveal_strlit("message");
    reveal_strlit("chargeId");
    reveal_strlit("amount");
    reveal_strlit("currency");
    reveal_strlit("paymentLink");
    reveal_strlit("refundId");
    reveal_strlit("paymentId");
    reveal_strlit("paymentStatus");
    reveal_strlit("eventId");
}

impl ChargeResponseView {
    /// The JSON form of the result holds its status code under `statusCode`.
    pub proof fn lemma_status_code(self)
        ensures
            self.to_json().int_field("statusCode"@) == Some(self.status_code as i64),
    {
        lemma_member_names();
        lemma_member_at(self.to_json()->Object_0, 5);
    }
}

impl PaymentLinkResponseView {
    /// The JSON form of the result holds its status code under `statusCode`.
    pub proof fn lemma_status_code(self)
        ensures
            self.to_json().int_field("statusCode"@) == Some(self.status_code as i64),
    {
        lemma_member_names();
        lemma_member_at(self.to_json()->Object_0, 3);
    }
}

impl RefundResponseView {
    /// The JSON form of the result holds its status code under `statusCode`.
    pub proof fn lemma_status_code(self)
        ensures
            self.to_json().int_field("statusCode"@) == Some(self.status_code as i64),
    {
        lemma_member_names();
        lemma_member_at(self.to_json()->Object_0, 5);
    }
}

impl PaymentStatusResponseView {
    /// The JSON form of the result holds its status code under `statusCode`.
    pub proof fn lemma_status_code(self)
        ensures
            self.to_json().int_field("statusCode"@) == Some(self.status_code as i64),
    {
        lemma_member_names();
        lemma_member_at(self.to_json()->Object_0, 6);
    }
}

impl WebhookResponseView {
    /// The JSON form of the result holds its status code under `statusCode`.
    pub proof fn lemma_status_code(self)
        ensures
            self.to_json().int_field("statusCode"@) == Some(self.status_code as i64),
    {
        lemma_member_names();
        lemma_member_at(self.to_json()->Object_0, 3);
    }
}

impl ErrorResponseView {
    /// The JSON form of the error result holds its status code under
    /// `statusCode`.
    pub proof fn lemma_status_code(self)
        ensures
            self.to_json().int_field("statusCode"@) == Some(self.status_code as i64),
    {
        lemma_member_names();
        lemma_member_at(self.to_json()->Object_0, 2);
    }
}

} // verus!
