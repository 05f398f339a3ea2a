//! The trace span of one request: what the library records of it, and the
//! transaction of the monitoring SDK that it drives.

use crate::headers::{pairs_view, HeaderMap};
use crate::request::{request_to_header_map, request_to_query_string, Request};
use crate::sdk::{sdk_finish, sdk_set_request, sdk_set_status, sdk_start_transaction};
use crate::status::SpanStatus;
use vstd::prelude::*;

verus! {

/// The kind of operation that every span of this library stands for.
pub const TRANSACTION_OPERATION_NAME: &'static str = "http.server";

/// The name of the span that stands in for one that was never started.
pub const INVALID_TRANSACTION_NAME: &'static str = "INVALID TRANSACTION";

/// What a span tells of the request that it traces.
#[derive(Clone, Debug)]
pub struct RequestSnapshot {
    /// The method token of the request.
    pub method: Option<String>,
    /// The query string, where the request had one.
    pub query_string: Option<String>,
    /// Every header of the request, name to value.
    pub headers: HeaderMap,
}

/// A request snapshot as plain values.
pub struct RequestSnapshotView {
    pub method: Option<Seq<char>>,
    pub query_string: Option<Seq<char>>,
    pub headers: Map<Seq<char>, Seq<char>>,
}

/// The views of an optional string.
pub open spec fn option_view(text: Option<String>) -> Option<Seq<char>> {
    match text {
        Some(text) => Some(text@),
        None => None,
    }
}

impl View for RequestSnapshot {
    type V = RequestSnapshotView;

    open spec fn view(&self) -> RequestSnapshotView {
        RequestSnapshotView {
            method: option_view(self.method),
            query_string: option_view(self.query_string),
            headers: self.headers@,
        }
    }
}

/// The snapshot that a span keeps of a request.
pub open spec fn snapshot_of(request: Request) -> RequestSnapshotView {
    RequestSnapshotView {
        method: Some(request.method@),
        query_string: option_view(request.query),
        headers: crate::headers::mapping_of(pairs_view(request.headers@)),
    }
}

/// A span as plain values.
pub struct TraceSpanView {
    pub name: Seq<char>,
    pub operation: Seq<char>,
    pub status: Option<SpanStatus>,
    pub request: Option<RequestSnapshotView>,
    pub finished: bool,
}

/// A span that was started under a name and not touched since.
pub open spec fn started(name: Seq<char>) -> TraceSpanView {
    TraceSpanView {
        name,
        operation: TRANSACTION_OPERATION_NAME@,
        status: None,
        request: None,
        finished: false,
    }
}

/// The trace span of one request.
#[derive(Debug)]
pub struct TraceSpan {
    name: String,
    status: Option<SpanStatus>,
    request: Option<RequestSnapshot>,
    finished: bool,
    transaction: sentry::Transaction,
}

impl View for TraceSpan {
    type V = TraceSpanView;

    closed spec fn view(&self) -> TraceSpanView {
        TraceSpanView {
            name: self.name@,
            operation: TRANSACTION_OPERATION_NAME@,
            status: self.status,
            request: match self.request {
                Some(request) => Some(request@),
                None => None,
            },
            finished: self.finished,
        }
    }
}

impl TraceSpan {
    /// The SDK transaction that the span drives.
    pub closed spec fn spec_transaction(&self) -> sentry::Transaction {
        self.transaction
    }

    /// The name of the span.
    pub fn name(&self) -> (name: &String)
        ensures
            name@ == self@.name,
    {
        &self.name
    }

    /// The status of the span, once it was set.
    pub fn status(&self) -> (status: Option<SpanStatus>)
        ensures
            status == self@.status,
    {
        self.status
    }

    /// What the span tells of its request, once that was set.
    pub fn request(&self) -> (request: Option<&RequestSnapshot>)
        ensures
            match request {
                Some(request) => self@.request == Some(request@),
                None => self@.request is None,
            },
    {
        self.request.as_ref()
    }

    /// Whether the span was finished.
    pub fn is_finished(&self) -> (finished: bool)
        ensures
            finished == self@.finished,
    {
        self.finished
    }

    /// The SDK transaction that the span drives.
    pub fn transaction(&self) -> (transaction: &sentry::Transaction)
        ensures
            *transaction == self.spec_transaction(),
    {
        &self.transaction
    }

    /// Records the status of the span, on the span and on its transaction.
    pub fn set_status(&mut self, status: SpanStatus)
        ensures
            final(self)@ == (TraceSpanView { status: Some(status), ..old(self)@ }),
            final(self).spec_transaction() == old(self).spec_transaction(),
    {
        sdk_set_status(&self.transaction, status);
        self.status = Some(status);
    }

    /// Finishes the span: its transaction is handed to the SDK, which sends
    /// it or drops it as it decided when the span was started.
    pub fn finish(&mut self)
        ensures
            final(self)@ == (TraceSpanView { finished: true, ..old(self)@ }),
            final(self).spec_transaction() == old(self).spec_transaction(),
    {
        sdk_finish(&self.transaction);
        self.finished = true;
    }
}

/// Starts a span under the given name, for the one kind of operation that
/// this library traces.
pub fn start_transaction(name: &str) -> (span: TraceSpan)
    ensures
        span@ == started(name@),
{
    let transaction = sdk_start_transaction(name, TRANSACTION_OPERATION_NAME);
    TraceSpan {
        name: name.to_owned(),
        status: None,
        request: None,
        finished: false,
        transaction,
    }
}

/// Starts the span that stands in where none was started with the request.
pub fn invalid_transaction() -> (span: TraceSpan)
    ensures
        span@ == started(INVALID_TRANSACTION_NAME@),
{
    start_transaction(INVALID_TRANSACTION_NAME)
}

/// Records on a span the method, the query string and the headers of its
/// request.
pub fn set_transaction_request(span: &mut TraceSpan, request: &Request)
    ensures
        final(span)@ == (TraceSpanView { request: Some(snapshot_of(*request)), ..old(span)@ }),
        final(span).spec_transaction() == old(span).spec_transaction(),
{
    let snapshot = RequestSnapshot {
        method: Some(request.method.clone()),
        query_string: request_to_query_string(request),
        headers: request_to_header_map(request),
    };
    sdk_set_request(&span.transaction, &snapshot);
    span.request = Some(snapshot);
}

} // verus!
