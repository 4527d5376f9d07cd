//! One invocation from the inbound event to the outbound envelope, as a
//! machine that the caller drives: it says which outside service to call
//! next, and takes what the service answered.

use crate::errors::{ErrorKind, Failure, GatewayError};
use crate::factory::{lemma_result_status, payment_step, PaymentProcessor, PaymentProcessorFactory};
use crate::json::{member_of, members_view, Json, JsonValue};
use crate::models::{ErrorResponse, ErrorResponseView, PaymentRequest, PaymentRequestView};
use crate::parser::{parse_event, JsonRequestParser};
use crate::remote::{
    arrived, HttpRequest, HttpRequestView, RemoteOutcome, RemoteOutcomeView, Step, StepView,
};
use crate::services::{secret_step, SecretsService, StoreReply, StoreReplyView};
use crate::text::join;
use vstd::prelude::*;

verus! {

/// The outward shape of every answer: a status code and a body.
#[derive(Debug, PartialEq, Eq)]
pub struct Envelope {
    pub status_code: i64,
    pub body: JsonValue,
}

/// The model of an envelope.
pub struct EnvelopeView {
    pub status_code: i64,
    pub body: Json,
}

impl View for Envelope {
    type V = EnvelopeView;

    open spec fn view(&self) -> EnvelopeView {
        EnvelopeView { status_code: self.status_code, body: self.body@ }
    }
}

/// The status code of a result: the integer under `statusCode`, or 500
/// where there is none.
pub open spec fn result_status(body: Json) -> i64 {
    match body.int_field("statusCode"@) {
        Some(code) => code,
        None => 500,
    }
}

/// The envelope of a result: the result's own status code, and the result
/// as it is.
pub open spec fn result_envelope(body: Json) -> EnvelopeView {
    EnvelopeView { status_code: result_status(body), body }
}

/// The envelope of an error result with a status code and a message.
pub open spec fn error_envelope(status_code: i32, message: Seq<char>) -> EnvelopeView {
    EnvelopeView {
        status_code: status_code as i64,
        body: ErrorResponseView { status: "error"@, message, status_code }.to_json(),
    }
}

impl EnvelopeView {
    /// The JSON form of an envelope: its status code, then its body.
    pub open spec fn to_json(self) -> Json {
        Json::Object(seq![("statusCode"@, Json::Integer(self.status_code)), ("body"@, self.body)])
    }

    /// Whether the status code outside is the one that the body holds under
    /// `statusCode`.
    pub open spec fn consistent(self) -> bool {
        self.body.int_field("statusCode"@) == Some(self.status_code)
    }
}

impl Envelope {
    /// The envelope of a result.
    pub fn of_result(body: JsonValue) -> (r: Envelope)
        ensures
            r@ == result_envelope(body@),
            body@.int_field("statusCode"@) is Some ==> r@.consistent(),
    {
        let status_code = match body.int_field("statusCode") {
            Some(code) => code,
            None => 500,
        };
        Envelope { status_code, body }
    }

    /// The envelope of an error result.
    pub fn of_error(status_code: i32, message: String) -> (r: Envelope)
        ensures
            r@ == error_envelope(status_code, message@),
            r@.consistent(),
    {
        let response = ErrorResponse { status: "error".to_owned(), message, status_code };
        proof {
            response@.lemma_status_code();
        }
        Envelope { status_code: status_code as i64, body: response.to_json() }
    }

    /// The JSON form of the envelope.
    pub fn to_json(self) -> (r: JsonValue)
        ensures
            r@ == self@.to_json(),
    {
        let mut members: Vec<(String, JsonValue)> = Vec::new();
        members.push(member_of("statusCode", JsonValue::Integer(self.status_code)));
        members.push(member_of("body", self.body));
        assert(members_view(members@) =~= self@.to_json()->Object_0);
        JsonValue::Object(members)
    }
}

/// The stages of an invocation at which a failure can be caught.
#[derive(Clone, Copy, Debug, PartialEq, Eq, Structural)]
pub enum Stage {
    /// Reading the request out of the event.
    Parsing,
    /// Reaching the credential store at all.
    StoreStartup,
    /// Resolving the tenant's key.
    Credential,
    /// Carrying out the operation.
    Dispatch,
}

/// The status code of a failure: 400 for an invalid request and for any
/// failure to read the request, 500 for everything else.
pub open spec fn failure_status(stage: Stage, kind: ErrorKind) -> i32 {
    if kind == ErrorKind::InvalidRequest || stage == Stage::Parsing {
        400
    } else {
        500
    }
}

/// What an error result says of a failure: the printed failure, after the
/// words for the stage at which it was caught.
pub open spec fn failure_message(stage: Stage, failure: Failure) -> Seq<char> {
    match stage {
        Stage::Parsing => "Invalid request: "@ + failure.text(),
        Stage::StoreStartup => "Failed to initialize secrets service: "@ + failure.text(),
        Stage::Credential => "Failed to retrieve API key: "@ + failure.text(),
        Stage::Dispatch => failure.text(),
    }
}

/// The envelope of a failure caught at a stage.
pub open spec fn failure_envelope(stage: Stage, failure: Failure) -> EnvelopeView {
    error_envelope(failure_status(stage, failure.kind), failure_message(stage, failure))
}

/// The envelope of a failure caught at a stage.
pub fn envelope_of_failure(stage: Stage, error: &GatewayError) -> (r: Envelope)
    ensures
        r@ == failure_envelope(stage, error@),
        r@.consistent(),
{
    let status_code: i32 = match (stage, error.kind()) {
        (_, ErrorKind::InvalidRequest) => 400,
        (Stage::Parsing, _) => 400,
        _ => 500,
    };
    let text = error.to_string();
    let message = match stage {
        Stage::Parsing => join("Invalid request: ", text.as_str()),
        Stage::StoreStartup => join("Failed to initialize secrets service: ", text.as_str()),
        Stage::Credential => join("Failed to retrieve API key: ", text.as_str()),
        Stage::Dispatch => text,
    };
    Envelope::of_error(status_code, message)
}

/// Where an invocation stands.
#[derive(Debug, PartialEq, Eq)]
pub enum Phase {
    /// The event has not come in yet.
    Idle,
    /// The credential store was asked for the key of the request's tenant.
    AwaitingSecret(PaymentRequest),
    /// The remote API was called for the request, with the tenant's key.
    AwaitingReply(PaymentRequest, String),
    /// The envelope has gone out.
    Finished,
}

/// The model of where an invocation stands.
pub enum PhaseView {
    Idle,
    AwaitingSecret(PaymentRequestView),
    AwaitingReply(PaymentRequestView, Seq<char>),
    Finished,
}

impl View for Phase {
    type V = PhaseView;

    open spec fn view(&self) -> PhaseView {
        match self {
            Phase::Idle => PhaseView::Idle,
            Phase::AwaitingSecret(request) => PhaseView::AwaitingSecret(request@),
            Phase::AwaitingReply(request, api_key) => PhaseView::AwaitingReply(
                request@,
                api_key@,
            ),
            Phase::Finished => PhaseView::Finished,
        }
    }
}

/// What can happen to an invocation.
#[derive(Debug, PartialEq, Eq)]
pub enum Event {
    /// The inbound event came in.
    Invoked(JsonValue),
    /// The credential store could not be reached at all.
    StoreUnavailable(GatewayError),
    /// The credential store answered.
    StoreAnswered(StoreReply),
    /// The call to the remote API ended.
    RemoteAnswered(RemoteOutcome),
}

/// The model of what can happen to an invocation.
pub enum EventView {
    Invoked(Json),
    StoreUnavailable(Failure),
    StoreAnswered(StoreReplyView),
    RemoteAnswered(RemoteOutcomeView),
}

impl View for Event {
    type V = EventView;

    open spec fn view(&self) -> EventView {
        match self {
            Event::Invoked(payload) => EventView::Invoked(payload@),
            Event::StoreUnavailable(error) => EventView::StoreUnavailable(error@),
            Event::StoreAnswered(reply) => EventView::StoreAnswered(reply@),
            Event::RemoteAnswered(outcome) => EventView::RemoteAnswered(outcome@),
        }
    }
}

/// What the caller is to do next.
#[derive(Debug, PartialEq, Eq)]
pub enum Action {
    /// Ask the credential store for the secret under this identifier.
    AskStore(String),
    /// Send this call to the remote API.
    CallRemote(HttpRequest),
    /// Return this envelope; the invocation is over.
    Respond(Envelope),
}

/// The model of what the caller is to do next.
pub enum ActionView {
    AskStore(Seq<char>),
    CallRemote(HttpRequestView),
    Respond(EnvelopeView),
}

impl View for Action {
    type V = ActionView;

    open spec fn view(&self) -> ActionView {
        match self {
            Action::AskStore(secret_id) => ActionView::AskStore(secret_id@),
            Action::CallRemote(call) => ActionView::CallRemote(call@),
            Action::Respond(envelope) => ActionView::Respond(envelope@),
        }
    }
}

/// The failure for an event that the phase does not wait for.
pub open spec fn out_of_order() -> Failure {
    Failure::unexpected("event out of order"@)
}

/// What follows a step of the operation: the remote call that it asks for,
/// or the envelope of its result or of its failure.
pub open spec fn after_payment(
    request: PaymentRequestView,
    api_key: Seq<char>,
    step: StepView<HttpRequestView, Json>,
) -> (PhaseView, ActionView) {
    match step {
        StepView::Call(call) => (
            PhaseView::AwaitingReply(request, api_key),
            ActionView::CallRemote(call),
        ),
        StepView::Done(Ok(body)) => (
            PhaseView::Finished,
            ActionView::Respond(result_envelope(body)),
        ),
        StepView::Done(Err(failure)) => (
            PhaseView::Finished,
            ActionView::Respond(failure_envelope(Stage::Dispatch, failure)),
        ),
    }
}

/// What follows a step of resolving the key: the lookup that it asks for,
/// the envelope of its failure, or, with the key, the first step of the
/// operation.
pub open spec fn after_secret(
    request: PaymentRequestView,
    step: StepView<Seq<char>, Seq<char>>,
) -> (PhaseView, ActionView) {
    match step {
        StepView::Call(secret_id) => (
            PhaseView::AwaitingSecret(request),
            ActionView::AskStore(secret_id),
        ),
        StepView::Done(Ok(api_key)) => after_payment(
            request,
            api_key,
            payment_step(api_key, request, None),
        ),
        StepView::Done(Err(failure)) => (
            PhaseView::Finished,
            ActionView::Respond(failure_envelope(Stage::Credential, failure)),
        ),
    }
}

/// The phase and the action that follow an event in a phase. The request
/// is parsed, the tenant's key resolved, the operation carried out, each
/// once and in this order; the first failure ends the invocation with its
/// envelope. An event that the phase does not wait for ends it too.
pub open spec fn next(phase: PhaseView, event: EventView) -> (PhaseView, ActionView) {
    match (phase, event) {
        (PhaseView::Idle, EventView::Invoked(payload)) => match parse_event(payload) {
            Ok(request) => after_secret(request, secret_step(request.store_id, None)),
            Err(failure) => (
                PhaseView::Finished,
                ActionView::Respond(failure_envelope(Stage::Parsing, failure)),
            ),
        },
        (PhaseView::AwaitingSecret(_), EventView::StoreUnavailable(failure)) => (
            PhaseView::Finished,
            ActionView::Respond(failure_envelope(Stage::StoreStartup, failure)),
        ),
        (PhaseView::AwaitingSecret(request), EventView::StoreAnswered(reply)) => after_secret(
            request,
            secret_step(request.store_id, Some(reply)),
        ),
        (PhaseView::AwaitingReply(request, api_key), EventView::RemoteAnswered(outcome)) => {
            after_payment(request, api_key, payment_step(api_key, request, Some(outcome)))
        },
        _ => (
            PhaseView::Finished,
            ActionView::Respond(failure_envelope(Stage::Dispatch, out_of_order())),
        ),
    }
}

/// The model of a phase and an action.
pub open spec fn turn_view(turn: (Phase, Action)) -> (PhaseView, ActionView) {
    (turn.0@, turn.1@)
}

/// Whether an action, where it is an envelope, has the status code outside
/// that its body holds.
pub open spec fn responds_consistently(action: ActionView) -> bool {
    action matches ActionView::Respond(envelope) ==> envelope.consistent()
}

/// How many events an invocation in a phase can still take before its
/// envelope has gone out.
pub open spec fn events_left(phase: PhaseView) -> nat {
    match phase {
        PhaseView::Idle => 3,
        PhaseView::AwaitingSecret(_) => 2,
        PhaseView::AwaitingReply(_, _) => 1,
        PhaseView::Finished => 0,
    }
}

/// Whether a phase and an action can follow an event in `phase`: the
/// action says which phase follows; the store is asked only for an
/// invocation that has just come in, and the remote API called only for
/// one that waited for the store; and an invocation that is not over has
/// fewer events left than before.
pub open spec fn moves_on(phase: PhaseView, after: PhaseView, action: ActionView) -> bool {
    &&& action is Respond <==> after is Finished
    &&& action is AskStore <==> after is AwaitingSecret
    &&& action is CallRemote <==> after is AwaitingReply
    &&& action is AskStore ==> phase is Idle
    &&& action is CallRemote ==> phase is AwaitingSecret
    &&& !(phase is Finished) ==> events_left(after) < events_left(phase)
}

/// Every event moves an invocation on. So an invocation asks the
/// credential store at most once, then calls the remote API at most once,
/// and ends with exactly one envelope after at most three events.
pub proof fn lemma_next_moves_on(phase: PhaseView, event: EventView)
    ensures
        moves_on(phase, next(phase, event).0, next(phase, event).1),
{
}

/// Every envelope that an invocation ends with has the status code outside
/// that its body holds under `statusCode`.
pub proof fn lemma_next_responds_consistently(phase: PhaseView, event: EventView)
    ensures
        responds_consistently(next(phase, event).1),
{
    match (phase, event) {
        (PhaseView::Idle, EventView::Invoked(payload)) => {
            if let Ok(request) = parse_event(payload) {
                lemma_after_secret_consistent(request, secret_step(request.store_id, None));
            } else {
                lemma_failure_consistent(Stage::Parsing, parse_event(payload)->Err_0);
            }
        },
        (PhaseView::AwaitingSecret(_), EventView::StoreUnavailable(failure)) => {
            lemma_failure_consistent(Stage::StoreStartup, failure);
        },
        (PhaseView::AwaitingSecret(request), EventView::StoreAnswered(reply)) => {
            lemma_after_secret_consistent(request, secret_step(request.store_id, Some(reply)));
        },
        (PhaseView::AwaitingReply(request, api_key), EventView::RemoteAnswered(outcome)) => {
            lemma_after_payment_consistent(request, api_key, Some(outcome));
        },
        _ => {
            lemma_failure_consistent(Stage::Dispatch, out_of_order());
        },
    }
}

proof fn lemma_failure_consistent(stage: Stage, failure: Failure)
    ensures
        failure_envelope(stage, failure).consistent(),
{
    ErrorResponseView {
        status: "error"@,
        message: failure_message(stage, failure),
        status_code: failure_status(stage, failure.kind),
    }.lemma_status_code();
}

proof fn lemma_after_payment_consistent(
    request: PaymentRequestView,
    api_key: Seq<char>,
    outcome: Option<RemoteOutcomeView>,
)
    ensures
        responds_consistently(
            after_payment(request, api_key, payment_step(api_key, request, outcome)).1,
        ),
{
    lemma_result_status(api_key, request, outcome);
    if let StepView::Done(Err(failure)) = payment_step(api_key, request, outcome) {
        lemma_failure_consistent(Stage::Dispatch, failure);
    }
}

proof fn lemma_after_secret_consistent(
    request: PaymentRequestView,
    step: StepView<Seq<char>, Seq<char>>,
)
    ensures
        responds_consistently(after_secret(request, step).1),
{
    match step {
        StepView::Call(_) => {},
        StepView::Done(Ok(api_key)) => {
            lemma_after_payment_consistent(request, api_key, None);
        },
        StepView::Done(Err(failure)) => {
            lemma_failure_consistent(Stage::Credential, failure);
        },
    }
}

fn follow_payment(
    request: PaymentRequest,
    api_key: String,
    outcome: Option<&RemoteOutcome>,
) -> (r: (Phase, Action))
    ensures
        turn_view(r) == after_payment(
            request@,
            api_key@,
            payment_step(api_key@, request@, arrived(outcome)),
        ),
        responds_consistently(r.1@),
{
    proof {
        lemma_result_status(api_key@, request@, arrived(outcome));
    }
    let factory = PaymentProcessorFactory::new(api_key.clone());
    match factory.process_payment(&request, outcome) {
        Step::Call(call) => (Phase::AwaitingReply(request, api_key), Action::CallRemote(call)),
        Step::Done(Ok(body)) => (Phase::Finished, Action::Respond(Envelope::of_result(body))),
        Step::Done(Err(error)) => (
            Phase::Finished,
            Action::Respond(envelope_of_failure(Stage::Dispatch, &error)),
        ),
    }
}

fn follow_secret(request: PaymentRequest, reply: Option<&StoreReply>) -> (r: (Phase, Action))
    ensures
        turn_view(r) == after_secret(
            request@,
            secret_step(request@.store_id, arrived(reply)),
        ),
        responds_consistently(r.1@),
{
    let service = SecretsService;
    match service.get_secret(request.store_id.as_str(), reply) {
        Step::Call(secret_id) => (Phase::AwaitingSecret(request), Action::AskStore(secret_id)),
        Step::Done(Ok(api_key)) => follow_payment(request, api_key, None),
        Step::Done(Err(error)) => (
            Phase::Finished,
            Action::Respond(envelope_of_failure(Stage::Credential, &error)),
        ),
    }
}

/// Takes an event in a phase, and gives the phase that follows and what the
/// caller is to do next. Every envelope that goes out has the status code
/// outside that its body holds under `statusCode`, and every event moves
/// the invocation on.
pub fn advance(phase: Phase, event: Event) -> (r: (Phase, Action))
    ensures
        turn_view(r) == next(phase@, event@),
        responds_consistently(r.1@),
        moves_on(phase@, r.0@, r.1@),
{
    proof {
        lemma_next_moves_on(phase@, event@);
    }
    match (phase, event) {
        (Phase::Idle, Event::Invoked(payload)) => {
            let parser = JsonRequestParser::new();
            match parser.parse(payload) {
                Ok(request) => follow_secret(request, None),
                Err(error) => (
                    Phase::Finished,
                    Action::Respond(envelope_of_failure(Stage::Parsing, &error)),
                ),
            }
        },
        (Phase::AwaitingSecret(_), Event::StoreUnavailable(error)) => (
            Phase::Finished,
            Action::Respond(envelope_of_failure(Stage::StoreStartup, &error)),
        ),
        (Phase::AwaitingSecret(request), Event::StoreAnswered(reply)) => follow_secret(
            request,
            Some(&reply),
        ),
        (Phase::AwaitingReply(request, api_key), Event::RemoteAnswered(outcome)) => {
            follow_payment(request, api_key, Some(&outcome))
        },
        _ => {
            let error = GatewayError::Unexpected("event out of order".to_owned());
            (Phase::Finished, Action::Respond(envelope_of_failure(Stage::Dispatch, &error)))
        },
    }
}

} // verus!
