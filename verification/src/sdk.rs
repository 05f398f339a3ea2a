//! The boundary to the crates outside: the types that pass through the
//! library unseen, and the calls into the monitoring SDK. What stands here is
//! believed, not proved. The calls claim nothing of what the SDK does: the
//! library's contracts speak of its own record of each span.

use crate::span::RequestSnapshot;
use crate::status::SpanStatus;
use vstd::prelude::*;

verus! {

/// A transaction of the monitoring SDK. Nothing inside it is visible here.
#[verifier::external_type_specification]
#[verifier::external_body]
pub struct ExTransaction(sentry::Transaction);

/// The guard that keeps the client of the monitoring SDK alive. Nothing
/// inside it is visible here.
#[verifier::external_type_specification]
#[verifier::external_body]
pub struct ExClientInitGuard(sentry::ClientInitGuard);

/// The error with which the configuration source refuses an extraction.
/// Nothing inside it is visible here.
#[verifier::external_type_specification]
#[verifier::external_body]
pub struct ExConfigError(figment::Error);

/// Calls `sentry::ClientInitGuard::is_enabled`. Whether a client is enabled
/// is for the SDK to say: nothing is claimed of the answer.
#[verifier::external_body]
pub(crate) fn guard_is_enabled(guard: &sentry::ClientInitGuard) -> (enabled: bool) {
    guard.is_enabled()
}

/// Calls `sentry::start_transaction` on a context made by
/// `sentry::TransactionContext::new` from the name and the operation. Nothing
/// is claimed of the transaction that comes back.
#[verifier::external_body]
pub(crate) fn sdk_start_transaction(
    name: &str,
    operation: &str,
) -> (transaction: sentry::Transaction) {
    sentry::start_transaction(sentry::TransactionContext::new(name, operation))
}

/// Calls `sentry::Transaction::set_status` with the SDK's status of the
/// same name. Nothing is claimed of the transaction afterwards.
#[verifier::external_body]
pub(crate) fn sdk_set_status(transaction: &sentry::Transaction, status: SpanStatus) {
    transaction.set_status(
        match status {
            SpanStatus::Okay => sentry::protocol::SpanStatus::Ok,
            SpanStatus::Unauthenticated => sentry::protocol::SpanStatus::Unauthenticated,
            SpanStatus::PermissionDenied => sentry::protocol::SpanStatus::PermissionDenied,
            SpanStatus::NotFound => sentry::protocol::SpanStatus::NotFound,
            SpanStatus::AlreadyExists => sentry::protocol::SpanStatus::AlreadyExists,
            SpanStatus::ResourceExhausted => sentry::protocol::SpanStatus::ResourceExhausted,
            SpanStatus::InvalidArgument => sentry::protocol::SpanStatus::InvalidArgument,
            SpanStatus::Unimplemented => sentry::protocol::SpanStatus::Unimplemented,
            SpanStatus::Unavailable => sentry::protocol::SpanStatus::Unavailable,
            SpanStatus::InternalError => sentry::protocol::SpanStatus::InternalError,
            SpanStatus::UnknownError => sentry::protocol::SpanStatus::UnknownError,
        },
    );
}

/// Calls `sentry::Transaction::set_request` with a `sentry::protocol::Request`
/// that holds the snapshot's method, query string and headers and nothing
/// else. Nothing is claimed of the transaction afterwards.
#[verifier::external_body]
pub(crate) fn sdk_set_request(transaction: &sentry::Transaction, snapshot: &RequestSnapshot) {
    transaction.set_request(
        sentry::protocol::Request {
            method: snapshot.method.clone(),
            query_string: snapshot.query_string.clone(),
            headers: snapshot.headers.entries().iter().cloned().collect(),
            ..Default::default()
        },
    );
}

/// Calls `sentry::Transaction::finish` on a clone of the transaction, which
/// shares its state. Nothing is claimed of the transaction afterwards.
#[verifier::external_body]
pub(crate) fn sdk_finish(transaction: &sentry::Transaction) {
    transaction.clone().finish();
}

} // verus!
