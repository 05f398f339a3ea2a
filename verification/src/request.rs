//! What the tracing hooks read of a request, and what they derive from it.

use crate::headers::{mapping_of, pairs_view, HeaderMap};
use vstd::prelude::*;

verus! {

/// The parts of an HTTP request that tracing reads.
#[derive(Clone, Debug)]
pub struct Request {
    /// The method token, such as `GET`.
    pub method: String,
    /// The path of the request URI, without the query string.
    pub path: String,
    /// The query string of the request URI, without the question mark.
    pub query: Option<String>,
    /// The headers, in the order and case in which the transport gave them.
    pub headers: Vec<(String, String)>,
}

/// The name of the transaction of a request: the method, a space, the path.
pub open spec fn transaction_name(method: Seq<char>, path: Seq<char>) -> Seq<char> {
    method + seq![' '] + path
}

/// Names the transaction of a request after its method and path. The query
/// string is no part of the name.
pub fn request_to_transaction_name(request: &Request) -> (name: String)
    ensures
        name@ == transaction_name(request.method@, request.path@),
{
    let mut name = request.method.clone();
    name.append(" ");
    name.append(request.path.as_str());
    proof {
        reveal_strlit(" ");
        assert(" "@ =~= seq![' ']);
    }
    name
}

/// The query string of a request, where it has one.
pub fn request_to_query_string(request: &Request) -> (query: Option<String>)
    ensures
        query == request.query,
{
    match &request.query {
        Some(query) => Some(query.clone()),
        None => None,
    }
}

/// Collects the headers of a request into a mapping from name to value. Where
/// a name comes more than once, its last value stays.
pub fn request_to_header_map(request: &Request) -> (map: HeaderMap)
    ensures
        map@ == mapping_of(pairs_view(request.headers@)),
{
    let mut map = HeaderMap::new();
    let mut i: usize = 0;
    assert(pairs_view(request.headers@).take(0) =~= Seq::empty());
    while i < request.headers.len()
        invariant
            i <= request.headers.len(),
            map@ == mapping_of(pairs_view(request.headers@).take(i as int)),
        decreases request.headers.len() - i,
    {
        let name = request.headers[i].0.clone();
        let value = request.headers[i].1.clone();
        map.insert(name, value);
        proof {
            let all = pairs_view(request.headers@);
            assert(all.take(i + 1).drop_last() =~= all.take(i as int));
            assert(all.take(i + 1).last() == (name@, value@));
        }
        i += 1;
    }
    assert(pairs_view(request.headers@).take(i as int) =~= pairs_view(request.headers@));
    map
}

} // verus!
