//! One request, from its first line to the closing of its connection.
//!
//! The lemmas here put the parts together: what [`route_of`] makes of the
//! request line, what [`submitted`] makes of the body, and what
//! [`written_for`] then lets the client see.

use crate::connection::{failure_for, greeting, status_for, written_for, STATUS_OK};
use crate::error::EigenError;
use crate::router::{endpoint_of, route_of, score_key, score_query_value, RouteView};
use crate::signature::{submitted, SignatureData, Submission};
use vstd::prelude::*;

verus! {

/// A query is a score query for `value` exactly when it is the key, one `=`
/// and `value`, and `value` is not empty and holds no `=`.
pub proof fn lemma_score_query_shape(query: Seq<char>, value: Seq<char>)
    ensures
        score_query_value(query) == Some(value) <==> (query == score_key() + seq!['='] + value
            && value.len() > 0 && !value.contains('=')),
{
    reveal_strlit("pubkey");
    let k = score_key().len() as int;
    if query == score_key() + seq!['='] + value && value.len() > 0 && !value.contains('=') {
        assert(query.subrange(0, k) =~= score_key());
        assert(query.subrange(k + 1, query.len() as int) =~= value);
    }
    if score_query_value(query) == Some(value) {
        assert(query =~= score_key() + seq!['='] + value);
    }
}

/// A query that holds no `=`, or more than one, is no score query; nor is one
/// whose key is not the score key, nor one that ends with its `=`.
pub proof fn lemma_score_query_has_one_separator(query: Seq<char>)
    ensures
        !query.contains('=') ==> score_query_value(query) is None,
        query.len() > 0 && query.last() == '=' ==> score_query_value(query) is None,
        (exists|i: int, j: int| 0 <= i < j < query.len() && query[i] == '=' && query[j] == '=')
            ==> score_query_value(query) is None,
        score_key().len() <= query.len() && query.subrange(0, score_key().len() as int)
            != score_key() ==> score_query_value(query) is None,
{
    reveal_strlit("pubkey");
    let k = score_key().len() as int;
    if score_query_value(query) is Some {
        let rest = query.subrange(k + 1, query.len() as int);
        assert(query[k] == '=');
        assert forall|i: int, j: int|
            0 <= i < j < query.len() && query[i] == '=' implies query[j] != '=' by {
            if i < k {
                assert(query.subrange(0, k)[i] == query[i]);
            } else {
                assert(rest[j - k - 1] == query[j]);
            }
        }
    }
}

/// A score request for any value that is not empty and has no `=` in it is
/// answered with the greeting, and the value is the key to score.
pub proof fn lemma_score_request_is_answered(value: Seq<char>)
    requires
        value.len() > 0,
        !value.contains('='),
    ensures
        route_of("GET"@, "/score"@, Some("pubkey="@ + value)) == Ok::<RouteView, EigenError>(
            RouteView::Score { pubkey: value },
        ),
        written_for(route_of("GET"@, "/score"@, Some("pubkey="@ + value))) == Some(greeting()),
        status_for(route_of("GET"@, "/score"@, Some("pubkey="@ + value))) == Some(STATUS_OK),
{
    reveal_strlit("pubkey");
    reveal_strlit("pubkey=");
    assert("pubkey="@ =~= score_key() + seq!['=']);
    lemma_score_query_shape("pubkey="@ + value, value);
}

/// A score request without a query, or with a query of another shape, is
/// refused as an invalid query and the client receives nothing. A query has
/// the shape when it is `pubkey=` and a value that is not empty and holds no
/// `=`.
pub proof fn lemma_score_request_needs_its_query(query: Option<Seq<char>>)
    requires
        query matches Some(q) ==> forall|value: Seq<char>|
            !(q == "pubkey="@ + value && value.len() > 0 && !value.contains('=')),
    ensures
        route_of("GET"@, "/score"@, query) == Err::<RouteView, EigenError>(
            EigenError::InvalidQuery,
        ),
        written_for(route_of("GET"@, "/score"@, query)) is None,
        failure_for(route_of("GET"@, "/score"@, query)) == Some(EigenError::InvalidQuery),
{
    reveal_strlit("pubkey");
    reveal_strlit("pubkey=");
    assert("pubkey="@ =~= score_key() + seq!['=']);
    if let Some(q) = query {
        if let Some(value) = score_query_value(q) {
            lemma_score_query_shape(q, value);
            assert(q == "pubkey="@ + value && value.len() > 0 && !value.contains('='));
        }
    }
}

/// A signature request is matched whatever its query. It is answered with the
/// greeting exactly when its body was read and holds a record; a body that
/// could not be read or decoded closes the connection with nothing written.
pub proof fn lemma_signature_request_needs_its_record(
    query: Option<Seq<char>>,
    submission: Submission,
)
    ensures
        route_of("POST"@, "/signature"@, query) == Ok::<RouteView, EigenError>(
            RouteView::Signature,
        ),
        match submission {
            Submission::Record(data) => {
                &&& submitted(submission) == Ok::<SignatureData, EigenError>(data)
                &&& written_for(submitted(submission)) == Some(greeting())
                &&& status_for(submitted(submission)) == Some(STATUS_OK)
            },
            Submission::Undecodable => {
                &&& failure_for(submitted(submission)) == Some(EigenError::ParseError)
                &&& written_for(submitted(submission)) is None
            },
            Submission::Unreadable => {
                &&& failure_for(submitted(submission)) == Some(EigenError::AggregateError)
                &&& written_for(submitted(submission)) is None
            },
        },
{
    reveal_strlit("GET");
    reveal_strlit("POST");
    assert("GET"@.len() != "POST"@.len());
}

/// A request to a method and path that no endpoint answers to is refused as
/// an invalid request, whatever its query, and the client receives nothing.
pub proof fn lemma_unmatched_request_is_refused(
    method: Seq<char>,
    path: Seq<char>,
    query: Option<Seq<char>>,
)
    requires
        !(method == "GET"@ && path == "/score"@),
        !(method == "POST"@ && path == "/signature"@),
    ensures
        endpoint_of(method, path) is None,
        route_of(method, path, query) == Err::<RouteView, EigenError>(EigenError::InvalidRequest),
        written_for(route_of(method, path, query)) is None,
        failure_for(route_of(method, path, query)) == Some(EigenError::InvalidRequest),
{
}

/// A request is answered or refused; no failure is turned into a response.
pub proof fn lemma_failure_writes_nothing<T>(outcome: Result<T, EigenError>)
    ensures
        written_for(outcome) is Some <==> outcome is Ok,
        written_for(outcome) is None <==> failure_for(outcome) is Some,
        status_for(outcome) is Some <==> written_for(outcome) is Some,
        written_for(outcome) matches Some(body) ==> body == greeting(),
{
}

} // verus!
