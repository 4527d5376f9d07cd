//! The failures that the gateway reports.

use crate::text::join;
use vstd::prelude::*;

verus! {

/// The kinds of failure.
#[derive(Clone, Copy, Debug, PartialEq, Eq, Structural)]
pub enum ErrorKind {
    /// The caller can correct it: a malformed payload, a missing field, an
    /// unknown operation, or a rejection relayed from the remote API.
    InvalidRequest,
    /// The call to the remote API failed in transport.
    StripeError,
    /// The call to the credential store failed.
    SecretsManagerError,
    /// A JSON document could not be decoded or encoded.
    SerializationError,
    /// Anything else, such as a credential that cannot be used.
    Unexpected,
}

/// The model of a failure: its kind and what it says.
pub struct Failure {
    pub kind: ErrorKind,
    pub detail: Seq<char>,
}

/// A failure of the gateway with its detail.
#[derive(Debug, PartialEq, Eq)]
pub enum GatewayError {
    InvalidRequest(String),
    StripeError(String),
    SecretsManagerError(String),
    SerializationError(String),
    Unexpected(String),
}

impl View for GatewayError {
    type V = Failure;

    open spec fn view(&self) -> Failure {
        match self {
            GatewayError::InvalidRequest(detail) => Failure {
                kind: ErrorKind::InvalidRequest,
                detail: detail@,
            },
            GatewayError::StripeError(detail) => Failure {
                kind: ErrorKind::StripeError,
                detail: detail@,
            },
            GatewayError::SecretsManagerError(detail) => Failure {
                kind: ErrorKind::SecretsManagerError,
                detail: detail@,
            },
            GatewayError::SerializationError(detail) => Failure {
                kind: ErrorKind::SerializationError,
                detail: detail@,
            },
            GatewayError::Unexpected(detail) => Failure {
                kind: ErrorKind::Unexpected,
                detail: detail@,
            },
        }
    }
}

/// The model of an outcome: the model of the value, or of the failure.
pub open spec fn outcome_view<T: View>(r: Result<T, GatewayError>) -> Result<T::V, Failure> {
    match r {
        Ok(value) => Ok(value@),
        Err(error) => Err(error@),
    }
}

/// What each kind of failure is introduced by when it is printed.
pub open spec fn kind_prefix(kind: ErrorKind) -> Seq<char> {
    match kind {
        ErrorKind::InvalidRequest => "Invalid request: "@,
        ErrorKind::StripeError => "Stripe API error: "@,
        ErrorKind::SecretsManagerError => "Secrets Manager error: "@,
        ErrorKind::SerializationError => "Serialization error: "@,
        ErrorKind::Unexpected => "Unexpected error: "@,
    }
}

impl Failure {
    /// The printed form of a failure: the words for its kind, then its detail.
    pub open spec fn text(self) -> Seq<char> {
        kind_prefix(self.kind) + self.detail
    }

    /// An invalid request that says `detail`.
    pub open spec fn invalid_request(detail: Seq<char>) -> Failure {
        Failure { kind: ErrorKind::InvalidRequest, detail }
    }

    /// A serialization error that says `detail`.
    pub open spec fn serialization(detail: Seq<char>) -> Failure {
        Failure { kind: ErrorKind::SerializationError, detail }
    }

    /// An unexpected error that says `detail`.
    pub open spec fn unexpected(detail: Seq<char>) -> Failure {
        Failure { kind: ErrorKind::Unexpected, detail }
    }
}

impl GatewayError {
    /// The kind of the failure.
    pub fn kind(&self) -> (r: ErrorKind)
        ensures
            r == self@.kind,
    {
        match self {
            GatewayError::InvalidRequest(_) => ErrorKind::InvalidRequest,
            GatewayError::StripeError(_) => ErrorKind::StripeError,
            GatewayError::SecretsManagerError(_) => ErrorKind::SecretsManagerError,
            GatewayError::SerializationError(_) => ErrorKind::SerializationError,
            GatewayError::Unexpected(_) => ErrorKind::Unexpected,
        }
    }

    /// What the failure says, without the words for its kind.
    pub fn detail(&self) -> (r: &str)
        ensures
            r@ == self@.detail,
    {
        match self {
            GatewayError::InvalidRequest(detail) => detail.as_str(),
            GatewayError::StripeError(detail) => detail.as_str(),
            GatewayError::SecretsManagerError(detail) => detail.as_str(),
            GatewayError::SerializationError(detail) => detail.as_str(),
            GatewayError::Unexpected(detail) => detail.as_str(),
        }
    }

    /// The printed form of the failure.
    pub fn to_string(&self) -> (r: String)
        ensures
            r@ == self@.text(),
    {
        match self {
            GatewayError::InvalidRequest(detail) => join("Invalid request: ", detail.as_str()),
            GatewayError::StripeError(detail) => join("Stripe API error: ", detail.as_str()),
            GatewayError::SecretsManagerError(detail) => join(
                "Secrets Manager error: ",
                detail.as_str(),
            ),
            GatewayError::SerializationError(detail) => join(
                "Serialization error: ",
                detail.as_str(),
            ),
            GatewayError::Unexpected(detail) => join("Unexpected error: ", detail.as_str()),
        }
    }
}

} // verus!
