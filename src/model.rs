use vstd::prelude::*;

verus! {

/// What the token endpoint hands back: the access token, its kind, the
/// space-separated names of the scopes that the user granted, its lifetime
/// in seconds, and a refresh token where the provider gave one.
#[derive(Debug)]
pub struct Token {
    pub access_token: String,
    pub token_type: String,
    pub scope: String,
    pub expires_in: i64,
    pub refresh_token: Option<String>,
}

} // verus!
