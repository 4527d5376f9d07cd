//! Dispatch: from the operation that a request names to the processor that
//! carries it out.

use crate::errors::{Failure, GatewayError};
use crate::json::{Json, JsonValue};
use crate::models::{
    ChargeResponseView, PaymentLinkResponseView, PaymentRequest, PaymentRequestView,
    PaymentStatusResponseView, RefundResponseView,
};
use crate::processors::{
    charge_step, payment_link_step, refund_step, status_step, webhook_result, ChargeProcessor,
    PaymentLinkProcessor, RefundProcessor, StatusProcessor, StripeChargeProcessor,
    StripePaymentLinkProcessor, StripeRefundProcessor, StripeStatusProcessor,
    StripeWebhookProcessor, WebhookProcessor,
};
use crate::remote::{
    arrived, HttpRequest, HttpRequestView, RemoteOutcome, RemoteOutcomeView, Step, StepView,
};
use crate::text::{join, same_text, to_uppercase, uppercase_of};
use vstd::prelude::*;

verus! {

/// The five operations.
#[derive(Clone, Copy, Debug, PartialEq, Eq, Structural)]
pub enum Operation {
    Charge,
    PaymentLink,
    Refund,
    Status,
    Webhook,
}

/// The operation with a given name in canonical case.
pub open spec fn operation_named(name: Seq<char>) -> Option<Operation> {
    if name == "CHARGE"@ {
        Some(Operation::Charge)
    } else if name == "PAYMENT_LINK"@ {
        Some(Operation::PaymentLink)
    } else if name == "REFUND"@ {
        Some(Operation::Refund)
    } else if name == "STATUS"@ {
        Some(Operation::Status)
    } else if name == "WEBHOOK"@ {
        Some(Operation::Webhook)
    } else {
        None
    }
}

/// The operation that a request type names: the one whose canonical name
/// is the upper case of the request type.
pub open spec fn operation_of(request_type: Seq<char>) -> Option<Operation> {
    operation_named(uppercase_of(request_type))
}

impl Operation {
    /// The operation with a given name in canonical case.
    pub fn from_canonical(name: &str) -> (r: Option<Operation>)
        ensures
            r == operation_named(name@),
    {
        if same_text(name, "CHARGE") {
            Some(Operation::Charge)
        } else if same_text(name, "PAYMENT_LINK") {
            Some(Operation::PaymentLink)
        } else if same_text(name, "REFUND") {
            Some(Operation::Refund)
        } else if same_text(name, "STATUS") {
            Some(Operation::Status)
        } else if same_text(name, "WEBHOOK") {
            Some(Operation::Webhook)
        } else {
            None
        }
    }

    /// The operation that a request type names, in whatever case it is
    /// written.
    pub fn of(request_type: &str) -> (r: Option<Operation>)
        ensures
            r == operation_of(request_type@),
    {
        let canonical = to_uppercase(request_type);
        Operation::from_canonical(canonical.as_str())
    }
}

/// The failure for a request type that names no operation.
pub open spec fn unknown_operation(request_type: Seq<char>) -> Failure {
    Failure::invalid_request("Invalid request type: "@ + request_type)
}

/// A step with its result, where it has one, in JSON form.
pub open spec fn in_json<T>(
    step: StepView<HttpRequestView, T>,
    to_json: spec_fn(T) -> Json,
) -> StepView<HttpRequestView, Json> {
    match step {
        StepView::Call(call) => StepView::Call(call),
        StepView::Done(Ok(value)) => StepView::Done(Ok(to_json(value))),
        StepView::Done(Err(failure)) => StepView::Done(Err(failure)),
    }
}

/// The step of an operation on a request: that of the processor for it,
/// with the result in JSON form.
pub open spec fn operation_step(
    operation: Operation,
    api_key: Seq<char>,
    request: PaymentRequestView,
    outcome: Option<RemoteOutcomeView>,
) -> StepView<HttpRequestView, Json> {
    match operation {
        Operation::Charge => in_json(
            charge_step(api_key, request, outcome),
            |v: ChargeResponseView| v.to_json(),
        ),
        Operation::PaymentLink => in_json(
            payment_link_step(api_key, request, outcome),
            |v: PaymentLinkResponseView| v.to_json(),
        ),
        Operation::Refund => in_json(
            refund_step(api_key, request, outcome),
            |v: RefundResponseView| v.to_json(),
        ),
        Operation::Status => in_json(
            status_step(api_key, request, outcome),
            |v: PaymentStatusResponseView| v.to_json(),
        ),
        Operation::Webhook => StepView::Done(
            match webhook_result(request) {
                Ok(v) => Ok(v.to_json()),
                Err(failure) => Err(failure),
            },
        ),
    }
}

/// The step of a request: that of the operation it names; a request type
/// that names none is refused, with the type as it was given.
pub open spec fn payment_step(
    api_key: Seq<char>,
    request: PaymentRequestView,
    outcome: Option<RemoteOutcomeView>,
) -> StepView<HttpRequestView, Json> {
    match operation_of(request.request_type) {
        Some(operation) => operation_step(operation, api_key, request, outcome),
        None => StepView::Done(Err(unknown_operation(request.request_type))),
    }
}

/// Carries out payment requests.
pub trait PaymentProcessor {
    /// One step of a request. Without an outcome of the remote call it
    /// says what is to be sent, or gives the result where nothing is; with
    /// one it gives the result. A request whose type names no operation is
    /// refused either way, with the type as it was given.
    fn process_payment(
        &self,
        request: &PaymentRequest,
        outcome: Option<&RemoteOutcome>,
    ) -> (r: Step<HttpRequest, JsonValue>)
        ensures
            outcome is Some ==> r is Done,
            operation_of(request@.request_type) is None ==> r@ == StepView::<
                HttpRequestView,
                Json,
            >::Done(Err(unknown_operation(request@.request_type))),
    ;
}

/// Makes the processor for each request and runs it.
pub struct PaymentProcessorFactory {
    api_key: String,
}

impl PaymentProcessorFactory {
    /// The key that the processors are made with.
    pub closed spec fn key(&self) -> Seq<char> {
        self.api_key@
    }

    /// A factory whose processors carry `api_key`.
    pub fn new(api_key: String) -> (r: Self)
        ensures
            r.key() == api_key@,
    {
        PaymentProcessorFactory { api_key }
    }

    /// One step of a request whose operation is known.
    pub fn run(&self, operation: Operation, request: &PaymentRequest, outcome: Option<
        &RemoteOutcome,
    >) -> (r: Step<HttpRequest, JsonValue>)
        ensures
            r@ == operation_step(operation, self.key(), request@, arrived(outcome)),
    {
        match operation {
            Operation::Charge => {
                let processor = StripeChargeProcessor::new(self.api_key.clone());
                match processor.process_charge(request, outcome) {
                    Step::Call(call) => Step::Call(call),
                    Step::Done(Ok(response)) => Step::Done(Ok(response.to_json())),
                    Step::Done(Err(error)) => Step::Done(Err(error)),
                }
            },
            Operation::PaymentLink => {
                let processor = StripePaymentLinkProcessor::new(self.api_key.clone());
                match processor.process_payment_link(request, outcome) {
                    Step::Call(call) => Step::Call(call),
                    Step::Done(Ok(response)) => Step::Done(Ok(response.to_json())),
                    Step::Done(Err(error)) => Step::Done(Err(error)),
                }
            },
            Operation::Refund => {
                let processor = StripeRefundProcessor::new(self.api_key.clone());
                match processor.process_refund(request, outcome) {
                    Step::Call(call) => Step::Call(call),
                    Step::Done(Ok(response)) => Step::Done(Ok(response.to_json())),
                    Step::Done(Err(error)) => Step::Done(Err(error)),
                }
            },
            Operation::Status => {
                let processor = StripeStatusProcessor::new(self.api_key.clone());
                match processor.process_status(request, outcome) {
                    Step::Call(call) => Step::Call(call),
                    Step::Done(Ok(response)) => Step::Done(Ok(response.to_json())),
                    Step::Done(Err(error)) => Step::Done(Err(error)),
                }
            },
            Operation::Webhook => {
                let processor = StripeWebhookProcessor::new(self.api_key.clone());
                match processor.process_webhook(request) {
                    Ok(response) => Step::Done(Ok(response.to_json())),
                    Err(error) => Step::Done(Err(error)),
                }
            },
        }
    }
}

impl PaymentProcessor for PaymentProcessorFactory {
    fn process_payment(
        &self,
        request: &PaymentRequest,
        outcome: Option<&RemoteOutcome>,
    ) -> (r: Step<HttpRequest, JsonValue>)
        ensures
            r@ == payment_step(self.key(), request@, arrived(outcome)),
    {
        match Operation::of(request.request_type.as_str()) {
            Some(operation) => self.run(operation, request, outcome),
            None => Step::Done(
                Err(
                    GatewayError::InvalidRequest(
                        join("Invalid request type: ", request.request_type.as_str()),
                    ),
                ),
            ),
        }
    }
}

/// Every result that a request ends with holds the status code 200 under
/// `statusCode`.
pub proof fn lemma_result_status(
    api_key: Seq<char>,
    request: PaymentRequestView,
    outcome: Option<RemoteOutcomeView>,
)
    ensures
        payment_step(api_key, request, outcome) matches StepView::Done(Ok(body))
            ==> body.int_field("statusCode"@) == Some(200i64),
{
    match operation_of(request.request_type) {
        Some(Operation::Charge) => {
            if let StepView::Done(Ok(v)) = charge_step(api_key, request, outcome) {
                v.lemma_status_code();
            }
        },
        Some(Operation::PaymentLink) => {
            if let StepView::Done(Ok(v)) = payment_link_step(api_key, request, outcome) {
                v.lemma_status_code();
            }
        },
        Some(Operation::Refund) => {
            if let StepView::Done(Ok(v)) = refund_step(api_key, request, outcome) {
                v.lemma_status_code();
            }
        },
        Some(Operation::Status) => {
            if let StepView::Done(Ok(v)) = status_step(api_key, request, outcome) {
                v.lemma_status_code();
            }
        },
        Some(Operation::Webhook) => {
            if let Ok(v) = webhook_result(request) {
                v.lemma_status_code();
            }
        },
        None => {},
    }
}

} // verus!
