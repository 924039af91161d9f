use spotify_auth::grant::{granted_covers, same_text};
use spotify_auth::model::Token;
use spotify_auth::scope::{Scope, ScopeList};
use spotify_auth::spotify::{Method, ResumePlayback};
use spotify_auth::Client;

fn token_with_scope(scope: String) -> Token {
    Token {
        access_token: String::from("reojwgpoerjg"),
        token_type: String::from("flkejrflwef"),
        scope,
        expires_in: 3,
        refresh_token: Some(String::from("IJOEWFO")),
    }
}

#[test]
fn scopes_limit_fns() {
    let scopes = ScopeList::create(vec![Scope::UserReadEmail, Scope::UserModifyPlaybackState]);
    let token = &token_with_scope(scopes.joined_names().unwrap());

    let client = Client::new(
        "5fe01282e44241328a84e7c5cc169165",
        ";awoeifjigowerg",
        scopes,
    );

    let spotify = client.with_access_token(token).unwrap();

    let pause = spotify.pause_playback_request(None).unwrap();
    assert_eq!(pause.method, Method::Put);
    assert_eq!(pause.url, "https://api.spotify.com/v1/me/player/pause");
    assert_eq!(pause.authorization_header, "Bearer reojwgpoerjg");
    assert!(pause.query.is_empty());
}

#[test]
fn scopes_mismatch() {
    let token = &token_with_scope(String::from("user-read-email ldfkjwefw eflkjwe ;flwe;qf"));

    let client = Client::new(
        "5fe01282e44241328a84e7c5cc169165",
        ";awoeifjigowerg",
        ScopeList::create(vec![Scope::UserReadEmail, Scope::UserReadPrivate]),
    );

    assert!(client.with_access_token(token).is_err());
}

#[test]
fn validation_accepts_extra_scopes() {
    let token = &token_with_scope(String::from("user-read-email foo bar"));
    let client = Client::new("abc123", "s3cret", ScopeList::empty().add(Scope::UserReadEmail));
    assert!(client.with_access_token(token).is_ok());

    let client = Client::new(
        "abc123",
        "s3cret",
        ScopeList::empty().add(Scope::UserReadPrivate).add(Scope::UserReadEmail),
    );
    assert!(client.with_access_token(token).is_err());
}

#[test]
fn validation_is_a_superset_check() {
    let required = ScopeList::empty()
        .add(Scope::UserTopRead)
        .add(Scope::Streaming)
        .add(Scope::UserTopRead);
    assert!(granted_covers("streaming user-top-read", &required));
    assert!(granted_covers("x  user-top-read y streaming z", &required));
    assert!(!granted_covers("x user-top-read y z", &required));
    assert!(!granted_covers("streaming", &required));
    assert!(!granted_covers("streaminguser-top-read", &required));
    assert!(!granted_covers("", &required));
    assert!(granted_covers("", &ScopeList::empty()));
    assert!(granted_covers("anything", &ScopeList::empty()));
}

#[test]
fn session_gates_operations() {
    let token = &token_with_scope(String::from("user-read-playback-state"));
    let client = Client::new("abc123", "s3cret", ScopeList::empty().add(Scope::UserReadPlaybackState));
    let spotify = client.with_access_token(token).unwrap();

    let err = spotify.pause_playback_request(Some("dev")).unwrap_err();
    assert_eq!(err.scope, Scope::UserModifyPlaybackState);
    assert_eq!(
        spotify.currently_playing_request(None).unwrap_err().scope,
        Scope::UserReadCurrentlyPlaying
    );
    let params = ResumePlayback::builder().device_id("dev").build();
    assert!(spotify.resume_playback_request(&params).is_err());

    let state = spotify.currently_playing_state_request(Some("SE")).unwrap();
    assert_eq!(state.method, Method::Get);
    assert_eq!(state.url, "https://api.spotify.com/v1/me/player/currently-playing");
    assert_eq!(state.query, vec![(String::from("market"), String::from("SE"))]);
    assert!(spotify.require(Scope::UserReadPlaybackState).is_ok());
}

#[test]
fn resume_request_carries_device_and_body() {
    let token = &token_with_scope(String::from("user-modify-playback-state"));
    let client = Client::new("abc123", "s3cret", ScopeList::empty().add(Scope::UserModifyPlaybackState));
    let spotify = client.with_access_token(token).unwrap();
    let uris = ["spotify:track:1", "spotify:track:2"];
    let params = ResumePlayback::builder()
        .device_id("dev")
        .uris(&uris)
        .position_ms(1200)
        .build();
    let request = spotify.resume_playback_request(&params).unwrap();
    assert_eq!(request.url, "https://api.spotify.com/v1/me/player/play");
    assert_eq!(request.query, vec![(String::from("device_id"), String::from("dev"))]);
    let body = params.body();
    assert_eq!(body.uris, Some(&uris[..]));
    assert_eq!(body.position_ms, Some(1200));
    assert_eq!(body.context_uri, None);
    assert!(body.offset.is_none());
}

#[test]
fn text_comparison() {
    assert!(same_text("abc", "abc"));
    assert!(!same_text("abc", "abd"));
    assert!(!same_text("abc", "ab"));
}
