use axum::http::Uri;
use substack_rss_filter::auth::{authorize, credential_of};
use substack_rss_filter::{auth, AppError};

fn target(text: &str) -> Uri {
    text.parse().expect("a request target")
}

fn pairs(list: &[(&str, &str)]) -> Vec<(String, String)> {
    list.iter().map(|(name, value)| (name.to_string(), value.to_string())).collect()
}

fn missing() -> AppError {
    AppError::AuthError("Missing ?API_KEY={} in uri".to_string())
}

fn invalid() -> AppError {
    AppError::AuthError("Invalid API_KEY".to_string())
}

#[test]
fn missing_credential_is_refused() {
    assert_eq!(authorize("s3cret", None), Err(missing()));
}

#[test]
fn wrong_credential_is_refused() {
    assert_eq!(authorize("s3cret", Some("guess")), Err(invalid()));
}

#[test]
fn right_credential_is_admitted() {
    assert_eq!(authorize("s3cret", Some("s3cret")), Ok(()));
}

#[test]
fn credential_comparison_is_case_sensitive() {
    assert_eq!(authorize("s3cret", Some("S3CRET")), Err(invalid()));
    assert_eq!(authorize("S3cret", Some("s3cret")), Err(invalid()));
}

#[test]
fn credential_is_not_trimmed() {
    assert_eq!(authorize("s3cret", Some(" s3cret")), Err(invalid()));
    assert_eq!(authorize("s3cret", Some("s3cret ")), Err(invalid()));
    assert_eq!(authorize("s3cret ", Some("s3cret")), Err(invalid()));
    assert_eq!(authorize(" s3cret ", Some(" s3cret ")), Ok(()));
}

#[test]
fn empty_credential_differs_from_missing_credential() {
    assert_eq!(authorize("s3cret", Some("")), Err(invalid()));
    assert_eq!(authorize("s3cret", None), Err(missing()));
    assert_eq!(authorize("", Some("")), Ok(()));
    assert_eq!(authorize("", None), Err(missing()));
}

#[test]
fn prefix_of_the_secret_is_refused() {
    assert_eq!(authorize("s3cret", Some("s3cre")), Err(invalid()));
    assert_eq!(authorize("s3cret", Some("s3cret1")), Err(invalid()));
}

#[test]
fn refusals_are_reported_as_unauthorized() {
    let missing = authorize("s3cret", None).unwrap_err().into_response();
    assert_eq!(missing.status, 401);
    assert_eq!(missing.body, "Authorization Error: Missing ?API_KEY={} in uri");
    let invalid = authorize("s3cret", Some("nope")).unwrap_err().into_response();
    assert_eq!(invalid.status, 401);
    assert_eq!(invalid.body, "Authorization Error: Invalid API_KEY");
}

#[test]
fn credential_is_the_value_of_the_one_key() {
    assert_eq!(credential_of(&pairs(&[("API_KEY", "k")])), Some("k"));
    assert_eq!(credential_of(&pairs(&[("a", "1"), ("API_KEY", "k"), ("b", "2")])), Some("k"));
    assert_eq!(credential_of(&pairs(&[("API_KEY", "")])), Some(""));
}

#[test]
fn query_without_the_key_presents_no_credential() {
    assert_eq!(credential_of(&pairs(&[])), None);
    assert_eq!(credential_of(&pairs(&[("a", "1"), ("b", "2")])), None);
    assert_eq!(credential_of(&pairs(&[("k", "API_KEY")])), None);
}

#[test]
fn key_name_is_case_sensitive() {
    assert_eq!(credential_of(&pairs(&[("api_key", "k")])), None);
    assert_eq!(credential_of(&pairs(&[("Api_Key", "k")])), None);
    assert_eq!(credential_of(&pairs(&[("API_KEY ", "k")])), None);
    assert_eq!(credential_of(&pairs(&[("APIKEY", "k")])), None);
}

#[test]
fn repeated_key_presents_no_credential() {
    assert_eq!(credential_of(&pairs(&[("API_KEY", "k"), ("API_KEY", "k")])), None);
    assert_eq!(credential_of(&pairs(&[("API_KEY", "a"), ("x", "1"), ("API_KEY", "b")])), None);
    assert_eq!(
        credential_of(&pairs(&[("API_KEY", "a"), ("API_KEY", "b"), ("API_KEY", "c")])),
        None
    );
}

#[test]
fn request_with_the_secret_is_admitted() {
    assert_eq!(auth("s3cret", &target("/filter/https://example.com/feed?API_KEY=s3cret")), Ok(()));
    assert_eq!(auth("s3cret", &target("/?x=1&API_KEY=s3cret&y=2")), Ok(()));
}

#[test]
fn request_without_query_is_refused_as_missing() {
    assert_eq!(auth("s3cret", &target("/filter/https://example.com/feed")), Err(missing()));
    assert_eq!(auth("s3cret", &target("/filter/x?")), Err(missing()));
    assert_eq!(auth("s3cret", &target("/filter/x?other=s3cret")), Err(missing()));
    assert_eq!(auth("s3cret", &target("/filter/x?api_key=s3cret")), Err(missing()));
}

#[test]
fn request_with_another_secret_is_refused_as_invalid() {
    assert_eq!(auth("s3cret", &target("/filter/x?API_KEY=guess")), Err(invalid()));
    assert_eq!(auth("s3cret", &target("/filter/x?API_KEY=")), Err(invalid()));
    assert_eq!(auth("s3cret", &target("/filter/x?API_KEY")), Err(invalid()));
    assert_eq!(auth("s3cret", &target("/filter/x?API_KEY=S3CRET")), Err(invalid()));
}

#[test]
fn request_that_repeats_the_key_is_refused_as_missing() {
    assert_eq!(
        auth("s3cret", &target("/filter/x?API_KEY=s3cret&API_KEY=s3cret")),
        Err(missing())
    );
}

#[test]
fn credential_in_the_query_is_decoded() {
    assert_eq!(auth("a b&c", &target("/filter/x?API_KEY=a+b%26c")), Ok(()));
    assert_eq!(auth("a b&c", &target("/filter/x?API_KEY=a%20b%26c")), Ok(()));
    assert_eq!(auth("cl\u{e9}", &target("/filter/x?API_KEY=cl%C3%A9")), Ok(()));
    assert_eq!(auth("k", &target("/filter/x?API%5FKEY=k")), Ok(()));
    assert_eq!(auth("a+b", &target("/filter/x?API_KEY=a+b")), Err(invalid()));
}
