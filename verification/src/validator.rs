//! Validating the token: does the service accept it, and whose is it.

use crate::guild::{Identity, IdentityView};
use crate::http::{request_to, Method, Reply, Request, RequestView};
use crate::json::{field_text, json_document, parse_document, string_field};
use vstd::prelude::*;

verus! {

/// The path that names the account behind the token.
pub const IDENTITY_PATH: &'static str = "/users/@me";

/// What validating a token found: whether the service accepts it and, if
/// so, whose it is.
#[derive(Debug, PartialEq, Eq)]
pub struct Validation {
    pub is_valid: bool,
    pub identity: Option<Identity>,
}

/// What a [`Validation`] is in contracts.
pub struct ValidationView {
    pub is_valid: bool,
    pub identity: Option<IdentityView>,
}

impl View for Validation {
    type V = ValidationView;

    open spec fn view(&self) -> ValidationView {
        ValidationView {
            is_valid: self.is_valid,
            identity: match self.identity {
                Some(identity) => Some(identity@),
                None => None,
            },
        }
    }
}

/// The request that asks whose token `credential` is.
pub open spec fn validation_request_of(credential: Seq<char>) -> RequestView {
    request_to(Method::Get, IDENTITY_PATH@, credential)
}

/// Builds the request that asks whose token `credential` is.
pub fn validation_request(credential: &str) -> (request: Request)
    ensures
        request@ == validation_request_of(credential@),
{
    Request::new(Method::Get, IDENTITY_PATH, credential)
}

/// The identity that the body of an accepting answer holds: the `username`
/// and `id` of the JSON value it parses to, each empty where the value has
/// no string of that name, and both empty where the body is no JSON.
pub open spec fn identity_in(body: Seq<u8>) -> IdentityView {
    match json_document(body) {
        Some(account) => IdentityView {
            username: field_text(account, "username"@),
            id: field_text(account, "id"@),
        },
        None => IdentityView { username: Seq::empty(), id: Seq::empty() },
    }
}

/// Reads the identity out of the body of an accepting answer.
fn identity_from_body(body: &Vec<u8>) -> (identity: Identity)
    ensures
        identity@ == identity_in(body@),
{
    match parse_document(body.as_slice()) {
        Ok(account) => Identity::from_fields(
            string_field(&account, "username"),
            string_field(&account, "id"),
        ),
        Err(_) => Identity::from_fields(None, None),
    }
}

/// Decides from the reply to the validation request whether the token is
/// valid.
///
/// The token is valid exactly when the service answered with a success
/// status, and only then is there an identity: the one that the body holds.
/// Any other status and a request that got no reply give an invalid token
/// and no identity.
pub fn validate(reply: &Reply) -> (outcome: Validation)
    ensures
        outcome.is_valid == reply@.succeeded(),
        outcome@.identity == if reply@.succeeded() {
            Some(identity_in(reply@.body()))
        } else {
            None
        },
{
    match reply {
        Reply::Answered { body, .. } => {
            if reply.succeeded() {
                Validation { is_valid: true, identity: Some(identity_from_body(body)) }
            } else {
                Validation { is_valid: false, identity: None }
            }
        },
        Reply::Failed => Validation { is_valid: false, identity: None },
    }
}

} // verus!
