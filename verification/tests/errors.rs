use vtn_mock::errors::{ApiError, ErrorKind, Success};

#[test]
fn each_failure_has_its_kind_status_and_message() {
    let table = [
        (ApiError::InvalidCredentials, ErrorKind::AuthError, 401, "Invalid credentials"),
        (ApiError::MissingAuthorization, ErrorKind::AuthError, 401, "No authorization header"),
        (ApiError::InvalidGrantType, ErrorKind::ValidationError, 400, "Invalid grant_type"),
        (ApiError::InvalidFormData, ErrorKind::ValidationError, 400, "Invalid form data"),
        (
            ApiError::MissingGrantFields,
            ErrorKind::ValidationError,
            400,
            "Missing grant_type or scope",
        ),
        (
            ApiError::MissingSubscriptionId,
            ErrorKind::ValidationError,
            400,
            "Subscription ID is required",
        ),
        (ApiError::InvalidParameters, ErrorKind::ValidationError, 400, "Invalid parameters"),
        (
            ApiError::SubscriptionIdMismatch,
            ErrorKind::ConflictError,
            400,
            "Subscription ID mismatch",
        ),
        (ApiError::SubscriptionNotFound, ErrorKind::NotFoundError, 404, "Subscription not found"),
        (ApiError::TimeOutOfRange, ErrorKind::InternalError, 500, "Time out of range"),
    ];
    for (error, kind, status, message) in table {
        assert_eq!(error.kind(), kind);
        assert_eq!(error.status_code(), status);
        assert_eq!(error.message(), message);
    }
}

#[test]
fn each_success_has_its_status() {
    assert_eq!(Success::Done.status_code(), 200);
    assert_eq!(Success::Created.status_code(), 201);
}
