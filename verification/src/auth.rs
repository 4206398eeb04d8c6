//! The credential check that guards the filter endpoint.
//!
//! The credential travels in the query of the request, as the value of the
//! parameter `API_KEY`. Splitting and decoding the query is `axum`'s work;
//! picking the parameter and comparing it with the secret is done here.

use vstd::prelude::*;
use axum::extract::Query;
use axum::http::Uri;
use crate::errors::{outcome_view, AppError, Failure};
use crate::seqs::{lemma_filter_empty, lemma_filter_push};
use crate::text::{same_text, text_of};

verus! {

/// `axum::http::Uri`, the target of a request: opaque here.
#[verifier::external_type_specification]
#[verifier::external_body]
pub struct ExUri(axum::http::Uri);

/// A query parameter: its name and its value, both decoded.
pub type Parameter = (Seq<char>, Seq<char>);

/// The parameters of the query of `uri`, in their order, where the query
/// can be read as a list of parameters. A target without a query has none.
pub uninterp spec fn query_of(uri: Uri) -> Option<Seq<Parameter>>;

/// `axum::extract::Query::try_from_uri`, asked for a list of pairs: the
/// parameters of the target's query, or `None` where the extractor rejects
/// the query. The outcome depends on the target alone.
#[verifier::external_body]
fn query_pairs(uri: &Uri) -> (pairs: Option<Vec<(String, String)>>)
    ensures
        match pairs {
            Some(list) => query_of(*uri) == Some(list.deep_view()),
            None => query_of(*uri) is None,
        },
{
    match Query::<Vec<(String, String)>>::try_from_uri(uri) {
        Ok(Query(pairs)) => Some(pairs),
        Err(_) => None,
    }
}

/// Name of the parameter that carries the credential. Case matters.
pub open spec fn key_name() -> Seq<char> {
    "API_KEY"@
}

/// The parameters of `query` that are named `API_KEY`.
pub open spec fn credentials(query: Seq<Parameter>) -> Seq<Parameter> {
    query.filter(|parameter: Parameter| parameter.0 == key_name())
}

/// The credential that a query presents: the value of its one parameter
/// named `API_KEY`. A query without that parameter presents none, and
/// neither does a query that holds it more than once.
pub open spec fn presented(query: Seq<Parameter>) -> Option<Seq<char>> {
    if credentials(query).len() == 1 {
        Some(credentials(query)[0].1)
    } else {
        None
    }
}

/// The credential that the request to `uri` presents.
pub open spec fn credential_in(uri: Uri) -> Option<Seq<char>> {
    match query_of(uri) {
        Some(query) => presented(query),
        None => None,
    }
}

/// Failure reported when the request presents no credential.
pub open spec fn missing_credential() -> Failure {
    Failure::Auth("Missing ?API_KEY={} in uri"@)
}

/// Failure reported when the request presents the wrong credential.
pub open spec fn invalid_credential() -> Failure {
    Failure::Auth("Invalid API_KEY"@)
}

/// Whether a request that presented `presented` passes under the secret
/// `api_key`, and why not where it does not.
///
/// The comparison is exact: case matters and nothing is trimmed.
pub open spec fn verdict(api_key: Seq<char>, presented: Option<Seq<char>>) -> Result<(), Failure> {
    match presented {
        None => Err(missing_credential()),
        Some(given) => if given == api_key {
            Ok(())
        } else {
            Err(invalid_credential())
        },
    }
}

/// Picks the credential out of the parameters of a query.
pub fn credential_of(pairs: &Vec<(String, String)>) -> (found: Option<&str>)
    ensures
        text_of(found) == presented(pairs.deep_view()),
{
    let ghost query = pairs.deep_view();
    let mut found: Option<&str> = None;
    let mut repeated = false;
    let mut at: usize = 0;
    proof {
        assert(query.take(0) =~= Seq::<Parameter>::empty());
        lemma_filter_empty(|parameter: Parameter| parameter.0 == key_name());
    }
    while at < pairs.len()
        invariant
            at <= pairs.len(),
            query == pairs.deep_view(),
            query.len() == pairs.len(),
            found is None ==> !repeated && credentials(query.take(at as int)).len() == 0,
            found is Some && !repeated ==> presented(query.take(at as int)) == text_of(found),
            repeated ==> credentials(query.take(at as int)).len() > 1,
        decreases pairs.len() - at,
    {
        let pair = &pairs[at];
        proof {
            let seen = query.take(at as int);
            assert(query.take(at + 1) =~= seen.push(query[at as int]));
            assert(query[at as int] == (pair.0@, pair.1@));
            lemma_filter_push(
                seen,
                query[at as int],
                |parameter: Parameter| parameter.0 == key_name(),
            );
        }
        if same_text(pair.0.as_str(), "API_KEY") {
            if found.is_some() {
                repeated = true;
            } else {
                found = Some(pair.1.as_str());
            }
        }
        at += 1;
    }
    proof {
        assert(query.take(query.len() as int) =~= query);
    }
    if repeated {
        None
    } else {
        found
    }
}

/// Checks a presented credential against the configured secret.
///
/// `presented` is the credential that the request presents, or `None`
/// where it presents none.
pub fn authorize(api_key: &str, presented: Option<&str>) -> (outcome: Result<(), AppError>)
    ensures
        outcome_view(outcome) == verdict(api_key@, text_of(presented)),
{
    match presented {
        None => Err(AppError::AuthError(String::from_str("Missing ?API_KEY={} in uri"))),
        Some(given) => {
            if same_text(given, api_key) {
                Ok(())
            } else {
                Err(AppError::AuthError(String::from_str("Invalid API_KEY")))
            }
        },
    }
}

/// Checks the credential of the request to `uri` against the configured
/// secret.
///
/// A request whose query cannot be read counts as one without credential.
/// Nothing may be fetched on behalf of a request for which this returns an
/// error.
pub fn auth(api_key: &str, uri: &Uri) -> (outcome: Result<(), AppError>)
    ensures
        outcome_view(outcome) == verdict(api_key@, credential_in(*uri)),
{
    match query_pairs(uri) {
        Some(pairs) => authorize(api_key, credential_of(&pairs)),
        None => authorize(api_key, None),
    }
}

} // verus!
