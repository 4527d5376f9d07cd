//! From the inbound event to a typed payment request.

use crate::errors::{outcome_view, Failure, GatewayError};
use crate::json::{
    copy_members, json_of_text, lemma_member_at, members_view, parse_text, Json, JsonValue,
};
use crate::models::{PaymentRequest, PaymentRequestView};
use crate::text::join;
use vstd::prelude::*;

verus! {

/// What is said of a required member that is not there.
pub open spec fn missing_field(key: Seq<char>) -> Seq<char> {
    "missing field `"@ + key + "`"@
}

/// What is said of a member that holds the wrong kind of document.
pub open spec fn invalid_field(key: Seq<char>) -> Seq<char> {
    "invalid type for field `"@ + key + "`"@
}

/// The text of a member that must be there and must be a string.
pub open spec fn required_text(doc: Json, key: Seq<char>) -> Result<Seq<char>, Failure> {
    match doc.get(key) {
        None => Err(Failure::serialization(missing_field(key))),
        Some(Json::String(text)) => Ok(text),
        Some(_) => Err(Failure::serialization(invalid_field(key))),
    }
}

/// The text of a member that may be missing or `Null`, and is a string
/// otherwise.
pub open spec fn optional_text(doc: Json, key: Seq<char>) -> Result<Option<Seq<char>>, Failure> {
    match doc.get(key) {
        None => Ok(None),
        Some(Json::Null) => Ok(None),
        Some(Json::String(text)) => Ok(Some(text)),
        Some(_) => Err(Failure::serialization(invalid_field(key))),
    }
}

/// The value of a member that may be missing or `Null`, and is a number
/// that fits a signed 64-bit integer otherwise.
pub open spec fn optional_int(doc: Json, key: Seq<char>) -> Result<Option<i64>, Failure> {
    match doc.get(key) {
        None => Ok(None),
        Some(Json::Null) => Ok(None),
        Some(Json::Integer(i)) => Ok(Some(i)),
        Some(_) => Err(Failure::serialization(invalid_field(key))),
    }
}

/// The members of a member that may be missing or `Null`, and is an object
/// otherwise.
pub open spec fn optional_object(doc: Json, key: Seq<char>) -> Result<
    Option<Seq<(Seq<char>, Json)>>,
    Failure,
> {
    match doc.get(key) {
        None => Ok(None),
        Some(Json::Null) => Ok(None),
        Some(Json::Object(members)) => Ok(Some(members)),
        Some(_) => Err(Failure::serialization(invalid_field(key))),
    }
}

/// The request that a JSON document holds. The document must be an object;
/// `storeId` and `requestType` must be strings; every other field may be
/// missing or `Null`, and must have its type otherwise. Members under other
/// names are passed over. The first field at fault, in the order of the
/// fields, decides the failure.
pub open spec fn decode_request(doc: Json) -> Result<PaymentRequestView, Failure> {
    if !(doc is Object) {
        Err(Failure::serialization("invalid type: expected an object"@))
    } else if required_text(doc, "storeId"@) is Err {
        Err(required_text(doc, "storeId"@)->Err_0)
    } else if optional_int(doc, "amount"@) is Err {
        Err(optional_int(doc, "amount"@)->Err_0)
    } else if optional_text(doc, "currency"@) is Err {
        Err(optional_text(doc, "currency"@)->Err_0)
    } else if optional_text(doc, "paymentToken"@) is Err {
        Err(optional_text(doc, "paymentToken"@)->Err_0)
    } else if optional_text(doc, "description"@) is Err {
        Err(optional_text(doc, "description"@)->Err_0)
    } else if required_text(doc, "requestType"@) is Err {
        Err(required_text(doc, "requestType"@)->Err_0)
    } else if optional_text(doc, "successUrl"@) is Err {
        Err(optional_text(doc, "successUrl"@)->Err_0)
    } else if optional_text(doc, "cancelUrl"@) is Err {
        Err(optional_text(doc, "cancelUrl"@)->Err_0)
    } else if optional_text(doc, "chargeId"@) is Err {
        Err(optional_text(doc, "chargeId"@)->Err_0)
    } else if optional_text(doc, "sessionId"@) is Err {
        Err(optional_text(doc, "sessionId"@)->Err_0)
    } else if optional_object(doc, "webhookEvent"@) is Err {
        Err(optional_object(doc, "webhookEvent"@)->Err_0)
    } else {
        Ok(
            PaymentRequestView {
                store_id: required_text(doc, "storeId"@)->Ok_0,
                amount: optional_int(doc, "amount"@)->Ok_0,
                currency: optional_text(doc, "currency"@)->Ok_0,
                payment_token: optional_text(doc, "paymentToken"@)->Ok_0,
                description: optional_text(doc, "description"@)->Ok_0,
                request_type: required_text(doc, "requestType"@)->Ok_0,
                success_url: optional_text(doc, "successUrl"@)->Ok_0,
                cancel_url: optional_text(doc, "cancelUrl"@)->Ok_0,
                charge_id: optional_text(doc, "chargeId"@)->Ok_0,
                session_id: optional_text(doc, "sessionId"@)->Ok_0,
                webhook_event: optional_object(doc, "webhookEvent"@)->Ok_0,
            },
        )
    }
}

/// The request that an inbound event holds. The event must have a member
/// `body`. A body that is a string is read as JSON text first; a body that
/// is an object is taken as it is; any other body is refused.
pub open spec fn parse_event(input: Json) -> Result<PaymentRequestView, Failure> {
    match input.get("body"@) {
        None => Err(Failure::invalid_request("Request body is missing"@)),
        Some(Json::String(text)) => match json_of_text(text) {
            Ok(doc) => decode_request(doc),
            Err(message) => Err(Failure::serialization(message)),
        },
        Some(Json::Object(members)) => decode_request(Json::Object(members)),
        Some(_) => Err(Failure::invalid_request("Body must be a JSON string or object"@)),
    }
}

fn missing(key: &str) -> (r: GatewayError)
    ensures
        r@ == Failure::serialization(missing_field(key@)),
{
    let start = join("missing field `", key);
    GatewayError::SerializationError(join(start.as_str(), "`"))
}

fn invalid(key: &str) -> (r: GatewayError)
    ensures
        r@ == Failure::serialization(invalid_field(key@)),
{
    let start = join("invalid type for field `", key);
    GatewayError::SerializationError(join(start.as_str(), "`"))
}

fn read_required_text(doc: &JsonValue, key: &str) -> (r: Result<String, GatewayError>)
    ensures
        outcome_view(r) == required_text(doc@, key@),
{
    match doc.get(key) {
        None => Err(missing(key)),
        Some(JsonValue::String(text)) => Ok(text.clone()),
        Some(_) => Err(invalid(key)),
    }
}

fn read_optional_text(doc: &JsonValue, key: &str) -> (r: Result<Option<String>, GatewayError>)
    ensures
        match r {
            Ok(Some(text)) => optional_text(doc@, key@) == Ok::<Option<Seq<char>>, Failure>(
                Some(text@),
            ),
            Ok(None) => optional_text(doc@, key@) == Ok::<Option<Seq<char>>, Failure>(None),
            Err(error) => optional_text(doc@, key@) == Err::<Option<Seq<char>>, Failure>(error@),
        },
{
    match doc.get(key) {
        None => Ok(None),
        Some(JsonValue::Null) => Ok(None),
        Some(JsonValue::String(text)) => Ok(Some(text.clone())),
        Some(_) => Err(invalid(key)),
    }
}

fn read_optional_int(doc: &JsonValue, key: &str) -> (r: Result<Option<i64>, GatewayError>)
    ensures
        match r {
            Ok(number) => optional_int(doc@, key@) == Ok::<Option<i64>, Failure>(number),
            Err(error) => optional_int(doc@, key@) == Err::<Option<i64>, Failure>(error@),
        },
{
    match doc.get(key) {
        None => Ok(None),
        Some(JsonValue::Null) => Ok(None),
        Some(JsonValue::Integer(i)) => Ok(Some(*i)),
        Some(_) => Err(invalid(key)),
    }
}

fn read_optional_object(
    doc: &JsonValue,
    key: &str,
) -> (r: Result<Option<Vec<(String, JsonValue)>>, GatewayError>)
    ensures
        match r {
            Ok(Some(members)) => optional_object(doc@, key@) == Ok::<
                Option<Seq<(Seq<char>, Json)>>,
                Failure,
            >(Some(members_view(members@))),
            Ok(None) => optional_object(doc@, key@) == Ok::<
                Option<Seq<(Seq<char>, Json)>>,
                Failure,
            >(None),
            Err(error) => optional_object(doc@, key@) == Err::<
                Option<Seq<(Seq<char>, Json)>>,
                Failure,
            >(error@),
        },
{
    match doc.get(key) {
        None => Ok(None),
        Some(JsonValue::Null) => Ok(None),
        Some(JsonValue::Object(members)) => Ok(Some(copy_members(members))),
        Some(_) => Err(invalid(key)),
    }
}

/// Reads inbound events.
pub struct JsonRequestParser;

impl JsonRequestParser {
    /// A parser. It holds nothing.
    pub fn new() -> Self {
        JsonRequestParser
    }

    /// Decodes a JSON document into a payment request.
    pub fn decode(&self, doc: &JsonValue) -> (r: Result<PaymentRequest, GatewayError>)
        ensures
            outcome_view(r) == decode_request(doc@),
    {
        if !doc.is_object() {
            return Err(
                GatewayError::SerializationError("invalid type: expected an object".to_owned()),
            );
        }
        let store_id = match read_required_text(doc, "storeId") {
            Ok(v) => v,
            Err(e) => { return Err(e); },
        };
        let amount = match read_optional_int(doc, "amount") {
            Ok(v) => v,
            Err(e) => { return Err(e); },
        };
        let currency = match read_optional_text(doc, "currency") {
            Ok(v) => v,
            Err(e) => { return Err(e); },
        };
        let payment_token = match read_optional_text(doc, "paymentToken") {
            Ok(v) => v,
            Err(e) => { return Err(e); },
        };
        let description = match read_optional_text(doc, "description") {
            Ok(v) => v,
            Err(e) => { return Err(e); },
        };
        let request_type = match read_required_text(doc, "requestType") {
            Ok(v) => v,
            Err(e) => { return Err(e); },
        };
        let success_url = match read_optional_text(doc, "successUrl") {
            Ok(v) => v,
            Err(e) => { return Err(e); },
        };
        let cancel_url = match read_optional_text(doc, "cancelUrl") {
            Ok(v) => v,
            Err(e) => { return Err(e); },
        };
        let charge_id = match read_optional_text(doc, "chargeId") {
            Ok(v) => v,
            Err(e) => { return Err(e); },
        };
        let session_id = match read_optional_text(doc, "sessionId") {
            Ok(v) => v,
            Err(e) => { return Err(e); },
        };
        let webhook_event = match read_optional_object(doc, "webhookEvent") {
            Ok(v) => v,
            Err(e) => { return Err(e); },
        };
        Ok(
            PaymentRequest {
                store_id,
                amount,
                currency,
                payment_token,
                description,
                request_type,
                success_url,
                cancel_url,
                charge_id,
                session_id,
                webhook_event,
            },
        )
    }

    /// Reads the payment request out of an inbound event.
    pub fn parse(&self, input: JsonValue) -> (r: Result<PaymentRequest, GatewayError>)
        ensures
            outcome_view(r) == parse_event(input@),
            input@.get("body"@) is None ==> outcome_view(r) == Err::<PaymentRequestView, Failure>(
                Failure::invalid_request("Request body is missing"@),
            ),
    {
        match input.get("body") {
            None => Err(GatewayError::InvalidRequest("Request body is missing".to_owned())),
            Some(JsonValue::String(text)) => match parse_text(text.as_str()) {
                Ok(doc) => self.decode(&doc),
                Err(message) => Err(GatewayError::SerializationError(message)),
            },
            Some(body) => if body.is_object() {
                self.decode(body)
            } else {
                Err(GatewayError::InvalidRequest("Body must be a JSON string or object".to_owned()))
            },
        }
    }
}

/// The names of the fields of a request differ from one another.
proof fn lemma_field_names_differ()
    ensures
        "storeId"@.len() == 7,
        "amount"@.len() == 6,
        "currency"@.len() == 8,
        "paymentToken"@.len() == 12,
        "description"@.len() == 11,
        "requestType"@.len() == 11,
        "successUrl"@.len() == 10,
        "cancelUrl"@.len() == 9,
        "chargeId"@.len() == 8,
        "sessionId"@.len() == 9,
        "webhookEvent"@.len() == 12,
        "currency"@ != "chargeId"@,
        "paymentToken"@ != "webhookEvent"@,
        "description"@ != "requestType"@,
        "cancelUrl"@ != "sessionId"@,
{
    reveal_strlit("storeId");
    reveal_strlit("amount");
    reveal_strlit("currency");
    reveal_strlit("paymentToken");
    reveal_strlit("description");
    reveal_strlit("requestType");
    reveal_strlit("successUrl");
    reveal_strlit("cancelUrl");
    reveal_strlit("chargeId");
    reveal_strlit("sessionId");
    reveal_strlit("webhookEvent");
    assert("currency"@[1] != "chargeId"@[1]);
    assert("paymentToken"@[0] != "webhookEvent"@[0]);
    assert("description"@[0] != "requestType"@[0]);
    assert("cancelUrl"@[0] != "sessionId"@[0]);
}

/// Reading a request back from its JSON form gives the same request.
pub proof fn lemma_decode_round_trip(request: PaymentRequestView)
    ensures
        decode_request(request.to_json()) == Ok::<PaymentRequestView, Failure>(request),
{
    lemma_field_names_differ();
    let doc = request.to_json();
    let members = doc->Object_0;
    lemma_member_at(members, 0);
    lemma_member_at(members, 1);
    lemma_member_at(members, 2);
    lemma_member_at(members, 3);
    lemma_member_at(members, 4);
    lemma_member_at(members, 5);
    lemma_member_at(members, 6);
    lemma_member_at(members, 7);
    lemma_member_at(members, 8);
    lemma_member_at(members, 9);
    lemma_member_at(members, 10);
}

/// An event whose body is the JSON form of a request is parsed to that
/// request.
pub proof fn lemma_parse_round_trip(request: PaymentRequestView, input: Json)
    requires
        input.get("body"@) == Some(request.to_json()),
    ensures
        parse_event(input) == Ok::<PaymentRequestView, Failure>(request),
{
    lemma_decode_round_trip(request);
}

} // verus!
