//! What passes between the gateway and the services it calls: the request
//! to send, what came back, and the step that a handler has reached.

use crate::encoding::pairs_view;
use crate::errors::{Failure, GatewayError};
use crate::json::{Json, JsonValue};
use vstd::prelude::*;

verus! {

/// The two methods that the remote API is called with.
#[derive(Clone, Copy, Debug, PartialEq, Eq, Structural)]
pub enum HttpMethod {
    Get,
    Post,
}

/// A call to the remote API, ready to be sent.
#[derive(Debug, PartialEq, Eq)]
pub struct HttpRequest {
    pub method: HttpMethod,
    pub url: String,
    /// The headers, each a name and a value.
    pub headers: Vec<(String, String)>,
    pub body: Option<String>,
}

/// The model of a call to the remote API.
pub struct HttpRequestView {
    pub method: HttpMethod,
    pub url: Seq<char>,
    pub headers: Seq<(Seq<char>, Seq<char>)>,
    pub body: Option<Seq<char>>,
}

impl View for HttpRequest {
    type V = HttpRequestView;

    open spec fn view(&self) -> HttpRequestView {
        HttpRequestView {
            method: self.method,
            url: self.url@,
            headers: pairs_view(self.headers@),
            body: match self.body {
                Some(text) => Some(text@),
                None => None,
            },
        }
    }
}

/// What the remote API answered: the status of the answer and the JSON
/// document in its body.
#[derive(Debug, PartialEq, Eq)]
pub struct HttpReply {
    pub status: u16,
    pub body: JsonValue,
}

/// The model of an answer of the remote API.
pub struct HttpReplyView {
    pub status: u16,
    pub body: Json,
}

impl View for HttpReply {
    type V = HttpReplyView;

    open spec fn view(&self) -> HttpReplyView {
        HttpReplyView { status: self.status, body: self.body@ }
    }
}

/// How a call to the remote API ended.
#[derive(Debug, PartialEq, Eq)]
pub enum RemoteOutcome {
    /// An answer came back.
    Replied(HttpReply),
    /// The call failed in transport, or the answer held no JSON; the text
    /// says how.
    Failed(String),
}

/// The model of the end of a call to the remote API.
pub enum RemoteOutcomeView {
    Replied(HttpReplyView),
    Failed(Seq<char>),
}

impl View for RemoteOutcome {
    type V = RemoteOutcomeView;

    open spec fn view(&self) -> RemoteOutcomeView {
        match self {
            RemoteOutcome::Replied(reply) => RemoteOutcomeView::Replied(reply@),
            RemoteOutcome::Failed(message) => RemoteOutcomeView::Failed(message@),
        }
    }
}

/// The model of an outcome that may not have arrived yet.
pub open spec fn arrived<T: View>(outcome: Option<&T>) -> Option<T::V> {
    match outcome {
        Some(o) => Some(o@),
        None => None,
    }
}

/// Where a handler stands: it needs an outside service to be called, or it
/// has its result.
#[derive(Debug, PartialEq, Eq)]
pub enum Step<A, T> {
    /// The service is to be called with this, and its outcome handed back.
    Call(A),
    /// Nothing is left to do.
    Done(Result<T, GatewayError>),
}

/// The model of a step.
pub enum StepView<A, T> {
    Call(A),
    Done(Result<T, Failure>),
}

impl<A: View, T: View> View for Step<A, T> {
    type V = StepView<A::V, T::V>;

    open spec fn view(&self) -> StepView<A::V, T::V> {
        match self {
            Step::Call(action) => StepView::Call(action@),
            Step::Done(Ok(value)) => StepView::Done(Ok(value@)),
            Step::Done(Err(error)) => StepView::Done(Err(error@)),
        }
    }
}

} // verus!
