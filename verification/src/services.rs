//! From a tenant to the API key that its calls are made with.

use crate::errors::{outcome_view, ErrorKind, Failure, GatewayError};
use crate::json::{json_of_text, parse_text, Json, JsonValue};
use crate::remote::{arrived, Step, StepView};
use crate::text::{blank, is_blank, join};
use vstd::prelude::*;

verus! {

/// What the credential store answered to a lookup.
#[derive(Debug, PartialEq, Eq)]
pub enum StoreReply {
    /// The secret that the store holds under the identifier.
    Found(String),
    /// The store answered, without a secret text.
    Missing,
    /// The call to the store failed; the text says how.
    Failed(String),
}

/// The model of an answer of the credential store.
pub enum StoreReplyView {
    Found(Seq<char>),
    Missing,
    Failed(Seq<char>),
}

impl View for StoreReply {
    type V = StoreReplyView;

    open spec fn view(&self) -> StoreReplyView {
        match self {
            StoreReply::Found(secret) => StoreReplyView::Found(secret@),
            StoreReply::Missing => StoreReplyView::Missing,
            StoreReply::Failed(message) => StoreReplyView::Failed(message@),
        }
    }
}

/// The model of what reading a secret as JSON gave.
pub open spec fn parsed_view(parsed: Result<JsonValue, String>) -> Result<Json, Seq<char>> {
    match parsed {
        Ok(doc) => Ok(doc@),
        Err(message) => Err(message@),
    }
}

/// The failure for a tenant without a usable secret.
pub open spec fn no_secret(secret_id: Seq<char>) -> Failure {
    Failure::unexpected("Secret is empty for store: "@ + secret_id)
}

/// The key that a secret bundle holds: the string member `stripeSecretKey`
/// of a secret that is a JSON document, unless it holds nothing but white
/// space.
pub open spec fn bundled_key(parsed: Result<Json, Seq<char>>) -> Option<Seq<char>> {
    match parsed {
        Ok(doc) => match doc.str_field("stripeSecretKey"@) {
            Some(key) => if is_blank(key) {
                None
            } else {
                Some(key)
            },
            None => None,
        },
        Err(_) => None,
    }
}

/// The key for a secret, given what reading the secret as JSON gave: the
/// key of the bundle where there is one; else the secret itself, unless it
/// holds nothing but white space.
pub open spec fn chosen_key(
    secret_id: Seq<char>,
    secret: Seq<char>,
    parsed: Result<Json, Seq<char>>,
) -> Result<Seq<char>, Failure> {
    match bundled_key(parsed) {
        Some(key) => Ok(key),
        None => if is_blank(secret) {
            Err(no_secret(secret_id))
        } else {
            Ok(secret)
        },
    }
}

/// The key for an answer of the store.
pub open spec fn resolved_key(secret_id: Seq<char>, reply: StoreReplyView) -> Result<
    Seq<char>,
    Failure,
> {
    match reply {
        StoreReplyView::Failed(message) => Err(
            Failure { kind: ErrorKind::SecretsManagerError, detail: message },
        ),
        StoreReplyView::Missing => Err(no_secret(secret_id)),
        StoreReplyView::Found(secret) => chosen_key(secret_id, secret, json_of_text(secret)),
    }
}

/// The step of a lookup: an empty identifier is refused before the store
/// is asked; else the store is to be asked for the identifier, and its
/// answer decides.
pub open spec fn secret_step(secret_id: Seq<char>, reply: Option<StoreReplyView>) -> StepView<
    Seq<char>,
    Seq<char>,
> {
    if secret_id.len() == 0 {
        StepView::Done(Err(Failure::invalid_request("Store ID cannot be empty"@)))
    } else {
        match reply {
            None => StepView::Call(secret_id),
            Some(answer) => StepView::Done(resolved_key(secret_id, answer)),
        }
    }
}

fn secret_is_empty(secret_id: &str) -> (r: GatewayError)
    ensures
        r@ == no_secret(secret_id@),
{
    GatewayError::Unexpected(join("Secret is empty for store: ", secret_id))
}

/// Resolves the API key of a tenant from the credential store.
pub struct SecretsService;

impl SecretsService {
    /// A resolver. It holds nothing, and making it does not fail.
    pub fn new() -> (r: Result<Self, GatewayError>)
        ensures
            r is Ok,
    {
        Ok(SecretsService)
    }

    /// The key for a secret, given what reading the secret as JSON gave.
    pub fn choose_key(
        &self,
        secret_id: &str,
        secret: &str,
        parsed: &Result<JsonValue, String>,
    ) -> (r: Result<String, GatewayError>)
        ensures
            outcome_view(r) == chosen_key(secret_id@, secret@, parsed_view(*parsed)),
    {
        if let Ok(doc) = parsed {
            if let Some(key) = doc.str_field("stripeSecretKey") {
                if !blank(key) {
                    return Ok(key.to_owned());
                }
            }
        }
        if blank(secret) {
            return Err(secret_is_empty(secret_id));
        }
        Ok(secret.to_owned())
    }

    /// One step of resolving the key of `secret_id`. Without an answer of
    /// the store it says whether the store is to be asked; with one it
    /// gives the key.
    pub fn get_secret(
        &self,
        secret_id: &str,
        reply: Option<&StoreReply>,
    ) -> (r: Step<String, String>)
        ensures
            r@ == secret_step(secret_id@, arrived(reply)),
    {
        if secret_id.is_empty() {
            return Step::Done(
                Err(GatewayError::InvalidRequest("Store ID cannot be empty".to_owned())),
            );
        }
        match reply {
            None => Step::Call(secret_id.to_owned()),
            Some(StoreReply::Failed(message)) => Step::Done(
                Err(GatewayError::SecretsManagerError(message.clone())),
            ),
            Some(StoreReply::Missing) => Step::Done(Err(secret_is_empty(secret_id))),
            Some(StoreReply::Found(secret)) => {
                let parsed = parse_text(secret.as_str());
                Step::Done(self.choose_key(secret_id, secret.as_str(), &parsed))
            },
        }
    }
}

} // verus!
