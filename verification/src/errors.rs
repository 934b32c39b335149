//! Typed results of the core. The HTTP boundary turns them into status codes
//! and messages; the numbers and texts it needs are given here.

use vstd::prelude::*;

verus! {

/// The classes of failure that the core knows.
#[derive(Debug, PartialEq, Eq, Clone, Copy, Structural)]
pub enum ErrorKind {
    /// The credential is missing or wrong.
    AuthError,
    /// The request lacks something or holds a value that is not allowed.
    ValidationError,
    /// No subscription is kept under the identifier.
    NotFoundError,
    /// The identifier in the body is not the one in the path.
    ConflictError,
    /// The clock gave a time for which no timestamp can be written.
    InternalError,
}

/// Why an operation failed.
#[derive(Debug, PartialEq, Eq, Clone, Copy, Structural)]
pub enum ApiError {
    /// The `Authorization` header is not the expected credential.
    InvalidCredentials,
    /// Token issuance was asked for without an `Authorization` header.
    MissingAuthorization,
    /// The grant form names a grant type other than `client_credentials`.
    InvalidGrantType,
    /// The grant form holds a field other than `grant_type` and `scope`.
    InvalidFormData,
    /// The grant form lacks `grant_type` or `scope`.
    MissingGrantFields,
    /// A subscription was sent without an identifier.
    MissingSubscriptionId,
    /// Length, limit or lead time of an event is below one.
    InvalidParameters,
    /// The identifier in a subscription is not the one it is sent under.
    SubscriptionIdMismatch,
    /// No subscription is kept under the identifier.
    SubscriptionNotFound,
    /// The current time, or the start of the event, is outside the range for
    /// which a timestamp can be written.
    TimeOutOfRange,
}

impl ApiError {
    /// The class of the failure.
    pub open spec fn spec_kind(self) -> ErrorKind {
        match self {
            ApiError::InvalidCredentials => ErrorKind::AuthError,
            ApiError::MissingAuthorization => ErrorKind::AuthError,
            ApiError::InvalidGrantType => ErrorKind::ValidationError,
            ApiError::InvalidFormData => ErrorKind::ValidationError,
            ApiError::MissingGrantFields => ErrorKind::ValidationError,
            ApiError::MissingSubscriptionId => ErrorKind::ValidationError,
            ApiError::InvalidParameters => ErrorKind::ValidationError,
            ApiError::SubscriptionIdMismatch => ErrorKind::ConflictError,
            ApiError::SubscriptionNotFound => ErrorKind::NotFoundError,
            ApiError::TimeOutOfRange => ErrorKind::InternalError,
        }
    }

    /// The HTTP status that the boundary answers with.
    pub open spec fn spec_status_code(self) -> u16 {
        match self.spec_kind() {
            ErrorKind::AuthError => 401,
            ErrorKind::ValidationError => 400,
            ErrorKind::NotFoundError => 404,
            ErrorKind::ConflictError => 400,
            ErrorKind::InternalError => 500,
        }
    }

    /// The text that the boundary answers with.
    pub open spec fn spec_message(self) -> Seq<char> {
        match self {
            ApiError::InvalidCredentials => "Invalid credentials"@,
            ApiError::MissingAuthorization => "No authorization header"@,
            ApiError::InvalidGrantType => "Invalid grant_type"@,
            ApiError::InvalidFormData => "Invalid form data"@,
            ApiError::MissingGrantFields => "Missing grant_type or scope"@,
            ApiError::MissingSubscriptionId => "Subscription ID is required"@,
            ApiError::InvalidParameters => "Invalid parameters"@,
            ApiError::SubscriptionIdMismatch => "Subscription ID mismatch"@,
            ApiError::SubscriptionNotFound => "Subscription not found"@,
            ApiError::TimeOutOfRange => "Time out of range"@,
        }
    }

    pub fn kind(&self) -> (kind: ErrorKind)
        ensures
            kind == self.spec_kind(),
    {
        match self {
            ApiError::InvalidCredentials => ErrorKind::AuthError,
            ApiError::MissingAuthorization => ErrorKind::AuthError,
            ApiError::InvalidGrantType => ErrorKind::ValidationError,
            ApiError::InvalidFormData => ErrorKind::ValidationError,
            ApiError::MissingGrantFields => ErrorKind::ValidationError,
            ApiError::MissingSubscriptionId => ErrorKind::ValidationError,
            ApiError::InvalidParameters => ErrorKind::ValidationError,
            ApiError::SubscriptionIdMismatch => ErrorKind::ConflictError,
            ApiError::SubscriptionNotFound => ErrorKind::NotFoundError,
            ApiError::TimeOutOfRange => ErrorKind::InternalError,
        }
    }

    pub fn status_code(&self) -> (code: u16)
        ensures
            code == self.spec_status_code(),
    {
        match self.kind() {
            ErrorKind::AuthError => 401,
            ErrorKind::ValidationError => 400,
            ErrorKind::NotFoundError => 404,
            ErrorKind::ConflictError => 400,
            ErrorKind::InternalError => 500,
        }
    }

    pub fn message(&self) -> (text: &'static str)
        ensures
            text@ == self.spec_message(),
    {
        match self {
            ApiError::InvalidCredentials => "Invalid credentials",
            ApiError::MissingAuthorization => "No authorization header",
            ApiError::InvalidGrantType => "Invalid grant_type",
            ApiError::InvalidFormData => "Invalid form data",
            ApiError::MissingGrantFields => "Missing grant_type or scope",
            ApiError::MissingSubscriptionId => "Subscription ID is required",
            ApiError::InvalidParameters => "Invalid parameters",
            ApiError::SubscriptionIdMismatch => "Subscription ID mismatch",
            ApiError::SubscriptionNotFound => "Subscription not found",
            ApiError::TimeOutOfRange => "Time out of range",
        }
    }
}

/// How an operation that answers with no body succeeded.
#[derive(Debug, PartialEq, Eq, Clone, Copy, Structural)]
pub enum Success {
    /// Read or changed: status 200.
    Done,
    /// Made anew: status 201.
    Created,
}

impl Success {
    /// The HTTP status that the boundary answers with.
    pub open spec fn spec_status_code(self) -> u16 {
        match self {
            Success::Done => 200,
            Success::Created => 201,
        }
    }

    pub fn status_code(&self) -> (code: u16)
        ensures
            code == self.spec_status_code(),
    {
        match self {
            Success::Done => 200,
            Success::Created => 201,
        }
    }
}

} // verus!
