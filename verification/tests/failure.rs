use starfish::failure::{Failure, FailureReason};

#[test]
fn new_failure_carries_default_message() {
    let f = Failure::new(FailureReason::UNAUTHORIZED);
    assert_eq!(f.message, "Requires authentication");
    assert_eq!(f.reason, FailureReason::UNAUTHORIZED);
    let f = Failure::new(FailureReason::INTERNAL_SERVER_ERROR);
    assert_eq!(f.message, "Distortion in spacetime detected: internal server error");
    let f = Failure::new(FailureReason::UNPROCESSABLE_ENTITY);
    assert_eq!(f.message, "The request is valid but cannot be processed in the current state");
}

#[test]
fn with_message_keeps_reason_and_message() {
    let f = Failure::with_message(FailureReason::CONFLICT, "taken".to_string());
    assert_eq!(f.reason, FailureReason::CONFLICT);
    assert_eq!(f.message, "taken");
}

#[test]
fn reasons_map_to_status_codes_and_names() {
    let all = [
        (FailureReason::INTERNAL_SERVER_ERROR, 500, "INTERNAL_SERVER_ERROR"),
        (FailureReason::BAD_REQUEST, 400, "BAD_REQUEST"),
        (FailureReason::UNAUTHORIZED, 401, "UNAUTHORIZED"),
        (FailureReason::FORBIDDEN, 403, "FORBIDDEN"),
        (FailureReason::NOT_FOUND, 404, "NOT_FOUND"),
        (FailureReason::CONFLICT, 409, "CONFLICT"),
        (FailureReason::UNPROCESSABLE_ENTITY, 422, "UNPROCESSABLE_ENTITY"),
    ];
    for (reason, code, name) in all {
        assert_eq!(reason.as_status_code(), code);
        assert_eq!(reason.as_str(), name);
        assert_eq!(Failure::new(reason).code(), name);
    }
}

#[test]
fn response_parts_carry_status_and_message() {
    let (status, body) = Failure::new(FailureReason::NOT_FOUND).into_response_parts();
    assert_eq!(status, 404);
    assert_eq!(body.message, "Resource not found");
}

#[test]
fn about_id_names_the_uuid() {
    let f = Failure::about_id(
        FailureReason::NOT_FOUND,
        "The store '",
        0xa1a2a3a4b1b2c1c2d1d2d3d4d5d6d7d8,
        "' could not be found",
    );
    assert_eq!(f.message, "The store 'a1a2a3a4-b1b2-c1c2-d1d2-d3d4d5d6d7d8' could not be found");
}

#[test]
fn internal_failure_is_500() {
    let f = Failure::internal();
    assert_eq!(f.reason.as_status_code(), 500);
}
