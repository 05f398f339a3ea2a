use rocket_sentry::status::{map_status, SpanStatus};

fn table(code: u16) -> SpanStatus {
    match code {
        401 => SpanStatus::Unauthenticated,
        403 => SpanStatus::PermissionDenied,
        404 => SpanStatus::NotFound,
        409 => SpanStatus::AlreadyExists,
        429 => SpanStatus::ResourceExhausted,
        501 => SpanStatus::Unimplemented,
        503 => SpanStatus::Unavailable,
        100..=399 => SpanStatus::Okay,
        400..=499 => SpanStatus::InvalidArgument,
        500..=599 => SpanStatus::InternalError,
        _ => SpanStatus::UnknownError,
    }
}

#[test]
fn map_status_informational_and_success_are_ok() {
    assert_eq!(map_status(100), SpanStatus::Okay);
    assert_eq!(map_status(200), SpanStatus::Okay);
    assert_eq!(map_status(204), SpanStatus::Okay);
    assert_eq!(map_status(299), SpanStatus::Okay);
}

#[test]
fn map_status_redirects_are_ok() {
    assert_eq!(map_status(300), SpanStatus::Okay);
    assert_eq!(map_status(302), SpanStatus::Okay);
    assert_eq!(map_status(399), SpanStatus::Okay);
}

#[test]
fn map_status_single_codes_win_over_their_class() {
    assert_eq!(map_status(401), SpanStatus::Unauthenticated);
    assert_eq!(map_status(403), SpanStatus::PermissionDenied);
    assert_eq!(map_status(404), SpanStatus::NotFound);
    assert_eq!(map_status(409), SpanStatus::AlreadyExists);
    assert_eq!(map_status(429), SpanStatus::ResourceExhausted);
    assert_eq!(map_status(501), SpanStatus::Unimplemented);
    assert_eq!(map_status(503), SpanStatus::Unavailable);
}

#[test]
fn map_status_other_client_errors_are_invalid_argument() {
    assert_eq!(map_status(400), SpanStatus::InvalidArgument);
    assert_eq!(map_status(402), SpanStatus::InvalidArgument);
    assert_eq!(map_status(418), SpanStatus::InvalidArgument);
    assert_eq!(map_status(499), SpanStatus::InvalidArgument);
}

#[test]
fn map_status_other_server_errors_are_internal_error() {
    assert_eq!(map_status(500), SpanStatus::InternalError);
    assert_eq!(map_status(502), SpanStatus::InternalError);
    assert_eq!(map_status(599), SpanStatus::InternalError);
}

#[test]
fn map_status_codes_outside_the_classes_are_unknown() {
    assert_eq!(map_status(0), SpanStatus::UnknownError);
    assert_eq!(map_status(99), SpanStatus::UnknownError);
    assert_eq!(map_status(600), SpanStatus::UnknownError);
    assert_eq!(map_status(999), SpanStatus::UnknownError);
    assert_eq!(map_status(u16::MAX), SpanStatus::UnknownError);
}

#[test]
fn map_status_agrees_with_the_table_on_every_code() {
    for code in 0..=u16::MAX {
        assert_eq!(map_status(code), table(code), "code {}", code);
    }
}
