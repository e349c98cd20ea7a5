//! Matching a request to an endpoint.

use crate::error::EigenError;
use crate::text::same_text;
use vstd::prelude::*;
use vstd::std_specs::iter::IteratorSpec;
use vstd::string::StrSliceExecFns;
use vstd::string::StringExecFns;

verus! {

/// The endpoints of the service.
#[derive(Debug, Clone, Copy, PartialEq, Eq, Structural)]
pub enum Endpoint {
    /// `GET /score`: asks for the score of a public key.
    Score,
    /// `POST /signature`: submits a signature record.
    Signature,
}

/// What a matched request asks for.
#[derive(Debug, PartialEq, Eq)]
pub enum Route {
    /// The score of `pubkey` is asked for; nothing more is read from the request.
    Score { pubkey: String },
    /// A signature record is submitted; it is in the request's body.
    Signature,
}

/// A [`Route`] as contracts see it.
pub enum RouteView {
    Score { pubkey: Seq<char> },
    Signature,
}

impl View for Route {
    type V = RouteView;

    open spec fn view(&self) -> RouteView {
        match self {
            Route::Score { pubkey } => RouteView::Score { pubkey: pubkey@ },
            Route::Signature => RouteView::Signature,
        }
    }
}

/// The endpoint that answers to a method and a path, if there is one.
///
/// Method and path are matched letter for letter.
pub open spec fn endpoint_of(method: Seq<char>, path: Seq<char>) -> Option<Endpoint> {
    if method == "GET"@ && path == "/score"@ {
        Some(Endpoint::Score)
    } else if method == "POST"@ && path == "/signature"@ {
        Some(Endpoint::Signature)
    } else {
        None
    }
}

/// The key that a score query names.
pub open spec fn score_key() -> Seq<char> {
    "pubkey"@
}

/// The value that a score query asks about, if the query is one.
///
/// A score query is the key, one `=`, and a value that is not empty and holds
/// no `=`. A key with nothing behind its `=` names no value and is no score
/// query.
pub open spec fn score_query_value(query: Seq<char>) -> Option<Seq<char>> {
    let k = score_key().len() as int;
    if query.len() > k + 1 && query.subrange(0, k) == score_key() && query[k] == '='
        && !query.subrange(k + 1, query.len() as int).contains('=') {
        Some(query.subrange(k + 1, query.len() as int))
    } else {
        None
    }
}

/// Reads the value out of a score query.
pub fn parse_score_query(query: &str) -> (r: Result<String, EigenError>)
    ensures
        match r {
            Ok(v) => score_query_value(query@) == Some(v@),
            Err(e) => e == EigenError::InvalidQuery && score_query_value(query@) is None,
        },
{
    broadcast use vstd::string::group_string_axioms;

    let head = "pubkey=";
    proof {
        reveal_strlit("pubkey=");
        reveal_strlit("pubkey");
    }
    let total = query.unicode_len();
    if total < 8 {
        return Err(EigenError::InvalidQuery);
    }
    let mut rest = query.chars();
    let mut k: usize = 0;
    loop
        invariant
            8 <= total == query@.len(),
            k <= total,
            head@ == seq!['p', 'u', 'b', 'k', 'e', 'y', '='],
            score_key() == seq!['p', 'u', 'b', 'k', 'e', 'y'],
            rest.remaining() == query@.skip(k as int),
            forall|j: int| 0 <= j < k && j < 7 ==> query@[j] == head@[j],
            forall|j: int| 7 <= j < k ==> query@[j] != '=',
        ensures
            k == total,
        decreases total - k,
    {
        match rest.next() {
            None => break,
            Some(c) => {
                assert(c == query@[k as int]);
                if k < 7 {
                    if c != head.get_char(k) {
                        assert(score_query_value(query@) is None) by {
                            if k < 6 {
                                assert(query@.subrange(0, 6)[k as int] == query@[k as int]);
                            }
                        }
                        return Err(EigenError::InvalidQuery);
                    }
                } else if c == '=' {
                    assert(query@.subrange(7, total as int)[k - 7] == '=');
                    return Err(EigenError::InvalidQuery);
                }
            },
        }
        assert(query@.skip(k as int).drop_first() =~= query@.skip(k + 1));
        k += 1;
    }
    let value = query.substring_char(7, total);
    assert(query@.subrange(0, 6) =~= score_key());
    Ok(String::from_str(value))
}

/// The characters of a query string that may be absent.
pub open spec fn query_text(query: Option<&str>) -> Option<Seq<char>> {
    match query {
        Some(q) => Some(q@),
        None => None,
    }
}

/// What a request with the given method, path and query asks for, or why it is
/// refused.
///
/// Method and path are looked at first: where no endpoint answers to them the
/// request is refused whatever its query. A score request needs a query of the
/// right shape. A signature request is matched whatever its query.
pub open spec fn route_of(method: Seq<char>, path: Seq<char>, query: Option<Seq<char>>) -> Result<
    RouteView,
    EigenError,
> {
    match endpoint_of(method, path) {
        None => Err(EigenError::InvalidRequest),
        Some(Endpoint::Signature) => Ok(RouteView::Signature),
        Some(Endpoint::Score) => match query {
            None => Err(EigenError::InvalidQuery),
            Some(q) => match score_query_value(q) {
                None => Err(EigenError::InvalidQuery),
                Some(v) => Ok(RouteView::Score { pubkey: v }),
            },
        },
    }
}

/// Finds the endpoint that answers to a method and a path.
pub fn endpoint(method: &str, path: &str) -> (r: Option<Endpoint>)
    ensures
        r == endpoint_of(method@, path@),
{
    if same_text(method, "GET") && same_text(path, "/score") {
        Some(Endpoint::Score)
    } else if same_text(method, "POST") && same_text(path, "/signature") {
        Some(Endpoint::Signature)
    } else {
        None
    }
}

/// Matches a request to its endpoint and checks what the endpoint needs of the
/// request line.
pub fn route(method: &str, path: &str, query: Option<&str>) -> (r: Result<Route, EigenError>)
    ensures
        match r {
            Ok(found) => route_of(method@, path@, query_text(query)) == Ok::<RouteView, EigenError>(
                found@,
            ),
            Err(e) => route_of(method@, path@, query_text(query)) == Err::<RouteView, EigenError>(e),
        },
{
    match endpoint(method, path) {
        None => Err(EigenError::InvalidRequest),
        Some(Endpoint::Signature) => Ok(Route::Signature),
        Some(Endpoint::Score) => match query {
            None => Err(EigenError::InvalidQuery),
            Some(q) => match parse_score_query(q) {
                Ok(pubkey) => Ok(Route::Score { pubkey }),
                Err(e) => Err(e),
            },
        },
    }
}

} // verus!
