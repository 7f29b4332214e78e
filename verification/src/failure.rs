//! The reasons a request fails, with the message and status that go back to the client.
use vstd::prelude::*;
use vstd::string::*;
use crate::encoding::{uuid_text, uuid_text_of};

verus! {

/// Why a request failed; each reason is an HTTP status.
#[allow(non_camel_case_types)]
#[derive(Clone, Copy, PartialEq, Eq, Structural, Debug)]
pub enum FailureReason {
    /// 500 INTERNAL_SERVER_ERROR
    INTERNAL_SERVER_ERROR,
    /// 400 BAD_REQUEST
    BAD_REQUEST,
    /// 401 UNAUTHORIZED
    UNAUTHORIZED,
    /// 403 FORBIDDEN
    FORBIDDEN,
    /// 404 NOT_FOUND
    NOT_FOUND,
    /// 409 CONFLICT
    CONFLICT,
    /// 422 UNPROCESSABLE ENTITY
    UNPROCESSABLE_ENTITY,
}

/// The message a failure carries when none is given.
pub open spec fn default_message_of(reason: FailureReason) -> Seq<char> {
    match reason {
        FailureReason::INTERNAL_SERVER_ERROR => "Distortion in spacetime detected: internal server error"@,
        FailureReason::BAD_REQUEST => "The request could not be processed"@,
        FailureReason::UNAUTHORIZED => "Requires authentication"@,
        FailureReason::FORBIDDEN => "Permission denied"@,
        FailureReason::NOT_FOUND => "Resource not found"@,
        FailureReason::CONFLICT => "The request conflicts with an existing resource"@,
        FailureReason::UNPROCESSABLE_ENTITY => "The request is valid but cannot be processed in the current state"@,
    }
}

/// The name of the reason, as clients see it in the error's `code`.
pub open spec fn reason_name_of(reason: FailureReason) -> Seq<char> {
    match reason {
        FailureReason::INTERNAL_SERVER_ERROR => "INTERNAL_SERVER_ERROR"@,
        FailureReason::BAD_REQUEST => "BAD_REQUEST"@,
        FailureReason::UNAUTHORIZED => "UNAUTHORIZED"@,
        FailureReason::FORBIDDEN => "FORBIDDEN"@,
        FailureReason::NOT_FOUND => "NOT_FOUND"@,
        FailureReason::CONFLICT => "CONFLICT"@,
        FailureReason::UNPROCESSABLE_ENTITY => "UNPROCESSABLE_ENTITY"@,
    }
}

/// The HTTP status code of the reason.
pub open spec fn status_code_of(reason: FailureReason) -> u16 {
    match reason {
        FailureReason::INTERNAL_SERVER_ERROR => 500,
        FailureReason::BAD_REQUEST => 400,
        FailureReason::UNAUTHORIZED => 401,
        FailureReason::FORBIDDEN => 403,
        FailureReason::NOT_FOUND => 404,
        FailureReason::CONFLICT => 409,
        FailureReason::UNPROCESSABLE_ENTITY => 422,
    }
}

impl FailureReason {
    pub fn default_message(&self) -> (message: &'static str)
        ensures
            message@ == default_message_of(*self),
    {
        match self {
            FailureReason::INTERNAL_SERVER_ERROR => "Distortion in spacetime detected: internal server error",
            FailureReason::BAD_REQUEST => "The request could not be processed",
            FailureReason::UNAUTHORIZED => "Requires authentication",
            FailureReason::FORBIDDEN => "Permission denied",
            FailureReason::NOT_FOUND => "Resource not found",
            FailureReason::CONFLICT => "The request conflicts with an existing resource",
            FailureReason::UNPROCESSABLE_ENTITY => "The request is valid but cannot be processed in the current state",
        }
    }

    pub fn as_str(&self) -> (name: &'static str)
        ensures
            name@ == reason_name_of(*self),
    {
        match self {
            FailureReason::INTERNAL_SERVER_ERROR => "INTERNAL_SERVER_ERROR",
            FailureReason::BAD_REQUEST => "BAD_REQUEST",
            FailureReason::UNAUTHORIZED => "UNAUTHORIZED",
            FailureReason::FORBIDDEN => "FORBIDDEN",
            FailureReason::NOT_FOUND => "NOT_FOUND",
            FailureReason::CONFLICT => "CONFLICT",
            FailureReason::UNPROCESSABLE_ENTITY => "UNPROCESSABLE_ENTITY",
        }
    }

    /// The HTTP status that a response for this reason carries.
    pub fn as_status_code(&self) -> (code: u16)
        ensures
            code == status_code_of(*self),
    {
        match self {
            FailureReason::INTERNAL_SERVER_ERROR => 500,
            FailureReason::BAD_REQUEST => 400,
            FailureReason::UNAUTHORIZED => 401,
            FailureReason::FORBIDDEN => 403,
            FailureReason::NOT_FOUND => 404,
            FailureReason::CONFLICT => 409,
            FailureReason::UNPROCESSABLE_ENTITY => 422,
        }
    }
}

/// A failed request: its reason and the message shown to the client.
#[derive(Debug)]
pub struct Failure {
    pub reason: FailureReason,
    pub message: String,
}

/// The body of an HTTP response for a failure.
#[derive(Debug)]
pub struct FailureResponse {
    pub message: String,
}

/// The failure with `reason` and the message `message`.
pub open spec fn is_failure(f: Failure, reason: FailureReason, message: Seq<char>) -> bool {
    f.reason == reason && f.message@ == message
}

/// The failure with `reason` and that reason's default message.
pub open spec fn is_default_failure(f: Failure, reason: FailureReason) -> bool {
    is_failure(f, reason, default_message_of(reason))
}

/// A message that names a resource by its id: `prefix` `'id'` `suffix`.
pub open spec fn id_message(prefix: Seq<char>, id: u128, suffix: Seq<char>) -> Seq<char> {
    prefix + uuid_text_of(id) + suffix
}

impl Failure {
    /// A failure with the reason's default message.
    pub fn new(reason: FailureReason) -> (failure: Self)
        ensures
            is_default_failure(failure, reason),
    {
        Failure { message: String::from_str(reason.default_message()), reason }
    }

    /// A failure with a message of the caller's choosing.
    pub fn with_message(reason: FailureReason, message: String) -> (failure: Self)
        ensures
            failure.reason == reason,
            failure.message@ == message@,
    {
        Failure { reason, message }
    }

    /// The unexpected failure: an internal server error with its default message.
    pub fn internal() -> (failure: Self)
        ensures
            is_default_failure(failure, FailureReason::INTERNAL_SERVER_ERROR),
    {
        Failure::new(FailureReason::INTERNAL_SERVER_ERROR)
    }

    /// A failure whose message names a resource by id: `prefix`, the id's text, `suffix`.
    pub fn about_id(reason: FailureReason, prefix: &str, id: u128, suffix: &str) -> (failure: Self)
        ensures
            is_failure(failure, reason, id_message(prefix@, id, suffix@)),
    {
        let message = String::from_str(prefix).concat(uuid_text(id).as_str()).concat(suffix);
        Failure { reason, message }
    }

    /// The error code that the GraphQL error carries in its extensions.
    pub fn code(&self) -> (code: &'static str)
        ensures
            code@ == reason_name_of(self.reason),
    {
        self.reason.as_str()
    }

    /// The HTTP status and body of the response for this failure.
    pub fn into_response_parts(self) -> (parts: (u16, FailureResponse))
        ensures
            parts.0 == status_code_of(self.reason),
            parts.1.message@ == self.message@,
    {
        (self.reason.as_status_code(), FailureResponse { message: self.message })
    }
}

} // verus!
