//! The status of a trace span, and how an HTTP status code selects it.

use vstd::prelude::*;

verus! {

/// The outcome recorded on a finished trace span.
#[derive(Clone, Copy, Debug, PartialEq, Eq, Structural)]
pub enum SpanStatus {
    /// The request was served: every code from 100 to 399.
    Okay,
    Unauthenticated,
    PermissionDenied,
    NotFound,
    AlreadyExists,
    ResourceExhausted,
    InvalidArgument,
    Unimplemented,
    Unavailable,
    InternalError,
    UnknownError,
}

/// The status that belongs to an HTTP status code. A code with a status of
/// its own gets that one; any other code gets the status of its class.
pub open spec fn status_of_code(code: int) -> SpanStatus {
    if code == 401 {
        SpanStatus::Unauthenticated
    } else if code == 403 {
        SpanStatus::PermissionDenied
    } else if code == 404 {
        SpanStatus::NotFound
    } else if code == 409 {
        SpanStatus::AlreadyExists
    } else if code == 429 {
        SpanStatus::ResourceExhausted
    } else if code == 501 {
        SpanStatus::Unimplemented
    } else if code == 503 {
        SpanStatus::Unavailable
    } else if 100 <= code <= 399 {
        SpanStatus::Okay
    } else if 400 <= code <= 499 {
        SpanStatus::InvalidArgument
    } else if 500 <= code <= 599 {
        SpanStatus::InternalError
    } else {
        SpanStatus::UnknownError
    }
}

/// The table of statuses, read by class: each code from 100 to 599 has the
/// status of its class unless it is one of the seven codes with a status of
/// their own, and every code outside those classes is unknown.
pub proof fn lemma_status_table(code: int)
    ensures
        100 <= code <= 399 ==> status_of_code(code) == SpanStatus::Okay,
        code == 401 ==> status_of_code(code) == SpanStatus::Unauthenticated,
        code == 403 ==> status_of_code(code) == SpanStatus::PermissionDenied,
        code == 404 ==> status_of_code(code) == SpanStatus::NotFound,
        code == 409 ==> status_of_code(code) == SpanStatus::AlreadyExists,
        code == 429 ==> status_of_code(code) == SpanStatus::ResourceExhausted,
        400 <= code <= 499 && code != 401 && code != 403 && code != 404 && code != 409 && code
            != 429 ==> status_of_code(code) == SpanStatus::InvalidArgument,
        code == 501 ==> status_of_code(code) == SpanStatus::Unimplemented,
        code == 503 ==> status_of_code(code) == SpanStatus::Unavailable,
        500 <= code <= 599 && code != 501 && code != 503 ==> status_of_code(code)
            == SpanStatus::InternalError,
        code < 100 || code > 599 ==> status_of_code(code) == SpanStatus::UnknownError,
{
}

/// Maps the status code of a response to the status of its span.
pub fn map_status(code: u16) -> (status: SpanStatus)
    ensures
        status == status_of_code(code as int),
{
    match code {
        100..=299 => SpanStatus::Okay,
        300..=399 => SpanStatus::Okay,
        401 => SpanStatus::Unauthenticated,
        403 => SpanStatus::PermissionDenied,
        404 => SpanStatus::NotFound,
        409 => SpanStatus::AlreadyExists,
        429 => SpanStatus::ResourceExhausted,
        400..=499 => SpanStatus::InvalidArgument,
        501 => SpanStatus::Unimplemented,
        503 => SpanStatus::Unavailable,
        500..=599 => SpanStatus::InternalError,
        _ => SpanStatus::UnknownError,
    }
}

} // verus!
