use rustfm_scrobble::auth::{AuthCredentials, CredentialsError};
use rustfm_scrobble::params::Params;

fn pairs(params: &Params) -> Vec<(String, String)> {
    params.entries().iter().map(|entry| (entry.key.clone(), entry.value.clone())).collect()
}

fn pair(key: &str, value: &str) -> (String, String) {
    (key.to_string(), value.to_string())
}

fn valid_credentials() -> AuthCredentials {
    let mut credentials = AuthCredentials::new_partial("k1".to_string(), "s1".to_string());
    credentials.set_user_credentials("u".to_string(), "p".to_string());
    credentials
}

#[test]
fn new_credentials_have_no_user_and_no_session() {
    let credentials = AuthCredentials::new_partial("k1".to_string(), "s1".to_string());
    assert!(!credentials.is_valid());
    assert!(!credentials.is_authenticated());
    assert_eq!(credentials.session_key(), None);
}

#[test]
fn construction_accepts_empty_strings() {
    let mut credentials = AuthCredentials::new_partial(String::new(), String::new());
    credentials.set_user_credentials("u".to_string(), "p".to_string());
    assert!(!credentials.is_valid());
    assert_eq!(credentials.get_auth_request_params(), Err(CredentialsError::MissingCredentials));
}

#[test]
fn validity_needs_all_four_fields() {
    assert!(valid_credentials().is_valid());
    for (key, secret, user, password) in [
        ("", "s", "u", "p"),
        ("k", "", "u", "p"),
        ("k", "s", "", "p"),
        ("k", "s", "u", ""),
    ] {
        let mut credentials = AuthCredentials::new_partial(key.to_string(), secret.to_string());
        credentials.set_user_credentials(user.to_string(), password.to_string());
        assert!(!credentials.is_valid());
        credentials.set_session_key("SK".to_string());
        assert!(!credentials.is_authenticated());
    }
}

#[test]
fn valid_is_not_authenticated() {
    let credentials = valid_credentials();
    assert!(credentials.is_valid());
    assert!(!credentials.is_authenticated());
}

#[test]
fn authenticated_is_valid() {
    let mut credentials = valid_credentials();
    credentials.set_session_key("SK".to_string());
    assert!(credentials.is_authenticated());
    assert!(credentials.is_valid());
    assert_eq!(credentials.session_key(), Some("SK".to_string()));
}

#[test]
fn session_key_alone_does_not_authenticate() {
    let mut credentials = AuthCredentials::new_partial("k1".to_string(), "s1".to_string());
    credentials.set_session_key("SK".to_string());
    assert_eq!(credentials.session_key(), Some("SK".to_string()));
    assert!(!credentials.is_authenticated());
}

#[test]
fn new_user_credentials_clear_the_session() {
    let mut credentials = valid_credentials();
    credentials.set_session_key("SK".to_string());
    credentials.set_user_credentials("v".to_string(), "q".to_string());
    assert_eq!(credentials.session_key(), None);
    assert!(credentials.is_valid());
    assert!(!credentials.is_authenticated());
}

#[test]
fn same_user_credentials_clear_the_session_too() {
    let mut credentials = valid_credentials();
    credentials.set_session_key("SK".to_string());
    credentials.set_user_credentials("u".to_string(), "p".to_string());
    assert_eq!(credentials.session_key(), None);
}

#[test]
fn new_user_token_clears_the_session() {
    let mut credentials = valid_credentials();
    credentials.set_session_key("SK".to_string());
    credentials.set_user_token("T".to_string());
    assert_eq!(credentials.session_key(), None);
    assert!(credentials.is_valid());
}

#[test]
fn session_key_is_replaced() {
    let mut credentials = valid_credentials();
    credentials.set_session_key("one".to_string());
    credentials.set_session_key("two".to_string());
    assert_eq!(credentials.session_key(), Some("two".to_string()));
}

#[test]
fn base_params_without_session() {
    let credentials = valid_credentials();
    assert_eq!(pairs(&credentials.get_request_params()), vec![pair("api_key", "k1")]);
}

#[test]
fn base_params_with_session() {
    let mut credentials = valid_credentials();
    credentials.set_session_key("SK".to_string());
    assert_eq!(
        pairs(&credentials.get_request_params()),
        vec![pair("api_key", "k1"), pair("sk", "SK")]
    );
}

#[test]
fn auth_params_of_valid_credentials() {
    let credentials = valid_credentials();
    let params = credentials.get_auth_request_params().unwrap();
    assert_eq!(
        pairs(&params),
        vec![pair("api_key", "k1"), pair("password", "p"), pair("username", "u")]
    );
}

#[test]
fn auth_params_need_valid_credentials() {
    let credentials = AuthCredentials::new_partial("k1".to_string(), "s1".to_string());
    assert_eq!(credentials.get_auth_request_params(), Err(CredentialsError::MissingCredentials));
    assert_eq!(credentials.get_token_request_params(), Err(CredentialsError::MissingCredentials));
}

#[test]
fn token_params_carry_the_token() {
    let mut credentials = valid_credentials();
    let without = credentials.get_token_request_params().unwrap();
    assert_eq!(
        pairs(&without),
        vec![pair("api_key", "k1"), pair("password", "p"), pair("username", "u")]
    );
    credentials.set_user_token("T".to_string());
    let with = credentials.get_token_request_params().unwrap();
    assert_eq!(
        pairs(&with),
        vec![pair("api_key", "k1"), pair("password", "p"), pair("token", "T"), pair("username", "u")]
    );
    let password = credentials.get_auth_request_params().unwrap();
    assert_eq!(
        pairs(&password),
        vec![pair("api_key", "k1"), pair("password", "p"), pair("username", "u")]
    );
}

#[test]
fn signature_uses_the_secret_of_the_credentials() {
    let first = AuthCredentials::new_partial("k1".to_string(), "s1".to_string());
    let second = AuthCredentials::new_partial("k1".to_string(), "s2".to_string());
    let params = Params::new();
    assert_eq!(
        first.get_signature("track.scrobble".to_string(), &params),
        rustfm_scrobble::signature::sign(&params, "track.scrobble", "s1")
    );
    assert_ne!(
        first.get_signature("track.scrobble".to_string(), &params),
        second.get_signature("track.scrobble".to_string(), &params)
    );
}
