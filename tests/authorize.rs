use spotify_auth::authorization::{bool_as_str, states_equal};
use spotify_auth::error::{MissingRequiredField, StatesNotEqual};
use spotify_auth::model::Token;
use spotify_auth::scope::{Scope, ScopeList};
use spotify_auth::Client;

fn client() -> Client {
    Client::new(
        "5fe01282e44241328a84e7c5cc169165",
        ";awoeifjigowerg",
        ScopeList::empty(),
    )
}

#[test]
fn compiles_auth_url() {
    let client = Client::new(
        "5fe01282e44241328a84e7c5cc169165",
        ";awoeifjigowerg",
        ScopeList::create(vec![Scope::UserReadPrivate, Scope::UserReadEmail]),
    );

    let first = client.authorization().redirect_uri("localhost:2345").build().unwrap();
    let _url = first.url();

    let auth = client
        .authorization()
        .redirect_uri(&String::from("https://example.com/callback"))
        .state("34fFs29kd09")
        .build()
        .unwrap();

    assert_eq!(auth.url(), "https://accounts.spotify.com/authorize?client_id=5fe01282e44241328a84e7c5cc169165&response_type=code&redirect_uri=https%3A%2F%2Fexample.com%2Fcallback&state=34fFs29kd09&scope=user-read-private+user-read-email")
}

#[test]
fn panics_when_missing_redirect_uri() {
    let result = client().authorization().build();
    assert_eq!(result.err(), Some(MissingRequiredField));
}

#[test]
fn authorize_url_scenario() {
    let client = Client::new(
        "abc123",
        "s3cret",
        ScopeList::empty().add(Scope::UserReadEmail).add(Scope::UserReadPrivate),
    );
    let auth = client
        .authorization()
        .redirect_uri("https://example.com/cb")
        .state("xyz")
        .build()
        .unwrap();
    assert_eq!(
        auth.url(),
        "https://accounts.spotify.com/authorize?client_id=abc123&response_type=code&redirect_uri=https%3A%2F%2Fexample.com%2Fcb&state=xyz&scope=user-read-private+user-read-email"
    );
}

#[test]
fn authorize_url_optional_parameters() {
    let auth = client()
        .authorization()
        .show_dialog(false)
        .response_type("token")
        .redirect_uri("a b/é")
        .build()
        .unwrap();
    assert_eq!(
        auth.url(),
        "https://accounts.spotify.com/authorize?client_id=5fe01282e44241328a84e7c5cc169165&response_type=token&redirect_uri=a+b%2F%C3%A9&show_dialog=false"
    );
    let auth = client().authorization().redirect_uri("x").show_dialog(true).build().unwrap();
    assert!(auth.url().ends_with("&redirect_uri=x&show_dialog=true"));
    assert_eq!(bool_as_str(true), "true");
    assert_eq!(bool_as_str(false), "false");
}

#[test]
fn token_fetch() {
    let auth = client().authorization().redirect_uri("hello").build().unwrap();
    let request = auth.token_request("code", None).unwrap();
    assert_eq!(request.url, "https://accounts.spotify.com/api/token");
    assert_eq!(
        request.authorization_header,
        "Basic NWZlMDEyODJlNDQyNDEzMjhhODRlN2M1Y2MxNjkxNjU6O2F3b2VpZmppZ293ZXJn"
    );
    assert_eq!(
        request.form,
        vec![
            (String::from("grant_type"), String::from("authorization_code")),
            (String::from("code"), String::from("code")),
            (String::from("redirect_uri"), String::from("hello")),
        ]
    );
}

#[test]
fn token_fetch2() {
    let auth = client().authorization().redirect_uri("hello").build().unwrap();
    assert_eq!(auth.token_request("code", Some("1")).err(), Some(StatesNotEqual));
}

#[test]
fn token_fetch_cmp() {
    let auth = client()
        .authorization()
        .redirect_uri("hello")
        .state("982348434")
        .build()
        .unwrap();

    assert!(auth.token_request("code", Some("982348434")).is_ok());
    assert!(auth.token_request("code", None).is_err());
}

#[test]
fn token_fetch_cmp_diff_types() {
    let auth = client()
        .authorization()
        .redirect_uri("hello")
        .state("982348434")
        .build()
        .unwrap();

    let owned = String::from("982348434");
    assert!(auth.token_request("code", Some(&owned)).is_ok());
}

#[test]
fn state_mismatch_is_a_security_violation() {
    let auth = client()
        .authorization()
        .redirect_uri("hello")
        .state("123")
        .build()
        .unwrap();
    assert_eq!(auth.token_request("code", Some("982348434")).err(), Some(StatesNotEqual));
}

#[test]
fn state_matching_rules() {
    assert!(states_equal(&None, None));
    assert!(!states_equal(&None, Some("")));
    assert!(!states_equal(&Some(String::from("a")), None));
    assert!(states_equal(&Some(String::from("a")), Some("a")));
    assert!(!states_equal(&Some(String::from("a")), Some("b")));
}

#[test]
fn refresh_request_uses_refresh_token() {
    let client = Client::new("abc123", "s3cret", ScopeList::empty());
    let auth = client.authorization().redirect_uri("hello").build().unwrap();
    let mut token = Token {
        access_token: String::from("a"),
        token_type: String::from("Bearer"),
        scope: String::new(),
        expires_in: 3600,
        refresh_token: Some(String::from("r1")),
    };
    let request = auth.refresh_request(&token).unwrap();
    assert_eq!(request.authorization_header, "Basic YWJjMTIzOnMzY3JldA==");
    assert_eq!(
        request.form,
        vec![
            (String::from("grant_type"), String::from("refresh_token")),
            (String::from("refresh_token"), String::from("r1")),
        ]
    );
    token.refresh_token = None;
    assert!(auth.refresh_request(&token).is_none());
}
