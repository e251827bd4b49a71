//! The answers of the JSON interface as plain values: the status, and either
//! the user or an error code with what it is about. Writing them as JSON is
//! left to the caller.

use vstd::prelude::*;
use crate::user_service::CreateUserResult;
use crate::user_service::GetUserByIdResult;
use crate::user_service::User;
use crate::validation::ValidationError;

verus! {

/// The body of an answer.
#[derive(Debug, Clone, PartialEq, Eq)]
pub enum ApiBody {
    /// A user, written as an object with its three fields.
    User(User),
    /// An error: `code` under the key `error`, and `value` under `key`.
    Error { code: String, key: String, value: String },
    /// An invalid input: `code` under the key `error`, and the list of
    /// errors under `key`.
    Invalid { code: String, key: String, errors: Vec<ValidationError> },
}

/// An answer: an HTTP status and a body.
#[derive(Debug, Clone, PartialEq, Eq)]
pub struct ApiReply {
    pub status: u16,
    pub body: ApiBody,
}

/// Whether `body` is the error `code` with `value` under `key`.
pub open spec fn is_error_body(body: ApiBody, code: Seq<char>, key: Seq<char>, value: Seq<char>) -> bool {
    match body {
        ApiBody::Error { code: c, key: k, value: v } => c@ == code && k@ == key && v@ == value,
        _ => false,
    }
}

/// Whether `body` is what the outcome of looking a user up is answered
/// with: the user found, or `not-found` or `invalid-id` with the identifier
/// that was asked for under `id`.
pub open spec fn is_lookup_body(outcome: GetUserByIdResult, body: ApiBody) -> bool {
    match outcome {
        GetUserByIdResult::Found(user) => body == ApiBody::User(user),
        GetUserByIdResult::NotFound { id } => is_error_body(body, "not-found"@, "id"@, id@),
        GetUserByIdResult::InvalidId { id } => is_error_body(body, "invalid-id"@, "id"@, id@),
    }
}

/// Whether `body` is what the outcome of creating a user is answered with:
/// the user created, `duplicate-email` with the address under `email`, or
/// `validation-failed` with the errors, in their order, under `errors`.
pub open spec fn is_create_body(outcome: CreateUserResult, body: ApiBody) -> bool {
    match outcome {
        CreateUserResult::Created(user) => body == ApiBody::User(user),
        CreateUserResult::DuplicateEmail { email } => is_error_body(
            body,
            "duplicate-email"@,
            "email"@,
            email@,
        ),
        CreateUserResult::ValidationFailed(errors) => match body {
            ApiBody::Invalid { code, key, errors: listed } => code@ == "validation-failed"@
                && key@ == "errors"@ && listed == errors,
            _ => false,
        },
    }
}

/// What the outcome of looking a user up is answered with, under the
/// status of the outcome.
pub fn lookup_api_reply(outcome: GetUserByIdResult) -> (reply: ApiReply)
    ensures
        reply.status == outcome.status_code(),
        is_lookup_body(outcome, reply.body),
{
    let status = outcome.http_status();
    let body = match outcome {
        GetUserByIdResult::Found(user) => ApiBody::User(user),
        GetUserByIdResult::NotFound { id } => ApiBody::Error {
            code: "not-found".to_owned(),
            key: "id".to_owned(),
            value: id,
        },
        GetUserByIdResult::InvalidId { id } => ApiBody::Error {
            code: "invalid-id".to_owned(),
            key: "id".to_owned(),
            value: id,
        },
    };
    ApiReply { status, body }
}

/// What the outcome of creating a user is answered with, under the status
/// of the outcome.
pub fn create_api_reply(outcome: CreateUserResult) -> (reply: ApiReply)
    ensures
        reply.status == outcome.status_code(),
        is_create_body(outcome, reply.body),
{
    let status = outcome.http_status();
    let body = match outcome {
        CreateUserResult::Created(user) => ApiBody::User(user),
        CreateUserResult::DuplicateEmail { email } => ApiBody::Error {
            code: "duplicate-email".to_owned(),
            key: "email".to_owned(),
            value: email,
        },
        CreateUserResult::ValidationFailed(errors) => ApiBody::Invalid {
            code: "validation-failed".to_owned(),
            key: "errors".to_owned(),
            errors,
        },
    };
    ApiReply { status, body }
}

} // verus!
