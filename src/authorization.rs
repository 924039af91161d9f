use vstd::prelude::*;
use vstd::string::*;
use vstd::utf8::encode_utf8;

use crate::error::{MissingRequiredField, StatesNotEqual};
use crate::model::Token;

verus! {

/// Whether a byte stands for itself in `application/x-www-form-urlencoded`.
pub open spec fn form_byte_unchanged(b: u8) -> bool {
    b == 42 || b == 45 || b == 46 || (48 <= b && b <= 57) || (65 <= b && b <= 90) || b == 95 || (
    97 <= b && b <= 122)
}

/// The upper-case hexadecimal digit of `d`, for `d < 16`.
pub open spec fn hex_digit(d: u8) -> char {
    if d < 10 {
        ((d + 48) as u8) as char
    } else {
        ((d + 55) as u8) as char
    }
}

/// The form encoding of one byte: itself, `+` for a space, `%XX` otherwise.
pub open spec fn form_encoded_byte(b: u8) -> Seq<char> {
    if form_byte_unchanged(b) {
        seq![b as char]
    } else if b == 32 {
        seq!['+']
    } else {
        seq!['%', hex_digit(b / 16), hex_digit(b % 16)]
    }
}

/// The form encoding of `bytes`, byte by byte.
pub open spec fn form_encoded(bytes: Seq<u8>) -> Seq<char>
    decreases bytes.len(),
{
    if bytes.len() == 0 {
        Seq::empty()
    } else {
        form_encoded(bytes.drop_last()) + form_encoded_byte(bytes.last())
    }
}

/// Relies on `url::form_urlencoded::byte_serialize`: each byte of the UTF-8
/// form of `s` in the unreserved set stays, a space becomes `+`, and every
/// other byte becomes `%` and two upper-case hexadecimal digits.
#[verifier::external_body]
fn form_encode(s: &str) -> (r: String)
    ensures
        r@ == form_encoded(s.spec_bytes()),
{
    url::form_urlencoded::byte_serialize(s.as_bytes()).collect()
}

/// One query parameter, `name=value`, both form encoded.
pub open spec fn encoded_pair(pair: (Seq<char>, Seq<char>)) -> Seq<char> {
    form_encoded(encode_utf8(pair.0)) + "="@ + form_encoded(encode_utf8(pair.1))
}

/// The query string of `params`, in order, separated by `&`.
pub open spec fn query_of(params: Seq<(Seq<char>, Seq<char>)>) -> Seq<char>
    decreases params.len(),
{
    if params.len() <= 1 {
        if params.len() == 1 {
            encoded_pair(params[0])
        } else {
            Seq::empty()
        }
    } else {
        query_of(params.drop_last()) + "&"@ + encoded_pair(params.last())
    }
}

proof fn lemma_query_push(params: Seq<(Seq<char>, Seq<char>)>, pair: (Seq<char>, Seq<char>))
    requires
        params.len() >= 1,
    ensures
        query_of(params.push(pair)) == query_of(params) + "&"@ + encoded_pair(pair),
{
    assert(params.push(pair).drop_last() =~= params);
}

fn encode_pair(name: &str, value: &str) -> (r: String)
    ensures
        r@ == encoded_pair((name@, value@)),
{
    let mut r = form_encode(name);
    r.append("=");
    let encoded_value = form_encode(value);
    r.append(encoded_value.as_str());
    r
}

fn push_pair(query: &mut String, name: &str, value: &str)
    ensures
        final(query)@ == old(query)@ + "&"@ + encoded_pair((name@, value@)),
{
    query.append("&");
    let pair = encode_pair(name, value);
    query.append(pair.as_str());
}

/// `"true"` or `"false"`.
pub open spec fn bool_text(value: bool) -> Seq<char> {
    if value {
        "true"@
    } else {
        "false"@
    }
}

/// `"true"` or `"false"`, as the provider spells booleans.
pub fn bool_as_str(value: bool) -> (r: &'static str)
    ensures
        r@ == bool_text(value),
{
    if value {
        "true"
    } else {
        "false"
    }
}

/// What an authorization request holds while it is built.
pub struct AuthorizationBuilderView {
    pub authorization_header: Seq<char>,
    pub client_id: Seq<char>,
    pub response_type: Option<Seq<char>>,
    pub redirect_uri: Option<Seq<char>>,
    pub state: Option<Seq<char>>,
    pub scope: Option<Seq<char>>,
    pub show_dialog: Option<bool>,
}

/// The parameters of the authorize URL, in their fixed order: `client_id`,
/// `response_type` (`code` unless set), `redirect_uri`, then `state`, `scope`
/// and `show_dialog`, each only where it was set.
pub open spec fn authorize_params(b: AuthorizationBuilderView) -> Seq<(Seq<char>, Seq<char>)> {
    let response_type = match b.response_type {
        Some(kind) => kind,
        None => "code"@,
    };
    let redirect_uri = match b.redirect_uri {
        Some(uri) => uri,
        None => Seq::empty(),
    };
    let fixed = seq![
        ("client_id"@, b.client_id),
        ("response_type"@, response_type),
        ("redirect_uri"@, redirect_uri),
    ];
    let with_state = match b.state {
        Some(state) => fixed.push(("state"@, state)),
        None => fixed,
    };
    let with_scope = match b.scope {
        Some(scope) => with_state.push(("scope"@, scope)),
        None => with_state,
    };
    match b.show_dialog {
        Some(show) => with_scope.push(("show_dialog"@, bool_text(show))),
        None => with_scope,
    }
}

/// The authorize URL of the provider with the query of `b`.
pub open spec fn authorize_url(b: AuthorizationBuilderView) -> Seq<char> {
    "https://accounts.spotify.com/authorize?"@ + query_of(authorize_params(b))
}

/// Whether the state handed back matches the state sent: no state matches
/// only no state, and a state only the same text.
pub open spec fn states_match(expected: Option<Seq<char>>, given: Option<Seq<char>>) -> bool {
    match (expected, given) {
        (None, None) => true,
        (Some(a), Some(b)) => a == b,
        _ => false,
    }
}

/// The text of an optional borrowed string.
pub open spec fn text_of(s: Option<&str>) -> Option<Seq<char>> {
    match s {
        Some(t) => Some(t@),
        None => None,
    }
}

/// The text of an optional owned string.
pub open spec fn owned_text_of(s: Option<String>) -> Option<Seq<char>> {
    match s {
        Some(t) => Some(t@),
        None => None,
    }
}

/// Whether the state `given` back by the provider matches the state
/// `expected` from the request.
pub fn states_equal(expected: &Option<String>, given: Option<&str>) -> (r: bool)
    ensures
        r == states_match(owned_text_of(*expected), text_of(given)),
{
    match (expected, given) {
        (None, None) => true,
        (Some(a), Some(b)) => crate::grant::same_text(a.as_str(), b),
        _ => false,
    }
}

/// No state is the same as no state; no state never matches a state; a state
/// matches exactly the states of the same text, however they are held.
pub proof fn lemma_state_matching(a: Seq<char>, b: Seq<char>)
    ensures
        states_match(None, None),
        !states_match(None, Some(b)),
        !states_match(Some(a), None),
        states_match(Some(a), Some(b)) <==> a == b,
{
}

/// An authorization request being built. Made by
/// [`crate::Client::authorization`].
pub struct AuthorizationBuilder {
    authorization_header: String,
    client_id: String,
    response_type: Option<String>,
    redirect_uri: Option<String>,
    state: Option<String>,
    scope: Option<String>,
    show_dialog: Option<bool>,
}

impl View for AuthorizationBuilder {
    type V = AuthorizationBuilderView;

    closed spec fn view(&self) -> AuthorizationBuilderView {
        AuthorizationBuilderView {
            authorization_header: self.authorization_header@,
            client_id: self.client_id@,
            response_type: owned_text_of(self.response_type),
            redirect_uri: owned_text_of(self.redirect_uri),
            state: owned_text_of(self.state),
            scope: owned_text_of(self.scope),
            show_dialog: self.show_dialog,
        }
    }
}

/// A request ready to be sent to the token endpoint: the `Authorization`
/// header and the form parameters of the body.
pub struct TokenRequest {
    pub url: String,
    pub authorization_header: String,
    pub form: Vec<(String, String)>,
}

/// The texts of a list of form parameters.
pub open spec fn form_text(form: Seq<(String, String)>) -> Seq<(Seq<char>, Seq<char>)> {
    form.map_values(|p: (String, String)| (p.0@, p.1@))
}

/// The token endpoint of the provider.
pub open spec fn token_endpoint() -> Seq<char> {
    "https://accounts.spotify.com/api/token"@
}

/// A finished authorization request: the URL that the user visits, and what
/// the exchange of the code needs.
pub struct Authorization {
    authorization_header: String,
    url: String,
    state: Option<String>,
    redirect_uri: String,
}

/// What a finished authorization request holds.
pub struct AuthorizationView {
    pub authorization_header: Seq<char>,
    pub url: Seq<char>,
    pub state: Option<Seq<char>>,
    pub redirect_uri: Seq<char>,
}

impl View for Authorization {
    type V = AuthorizationView;

    closed spec fn view(&self) -> AuthorizationView {
        AuthorizationView {
            authorization_header: self.authorization_header@,
            url: self.url@,
            state: owned_text_of(self.state),
            redirect_uri: self.redirect_uri@,
        }
    }
}

fn two_strings(a: &str, b: &str) -> (r: (String, String))
    ensures
        r.0@ == a@,
        r.1@ == b@,
{
    (String::from_str(a), String::from_str(b))
}

impl TokenRequest {
    /// The form parameters as an `application/x-www-form-urlencoded` body.
    pub fn body(&self) -> (r: String)
        ensures
            r@ == query_of(form_text(self.form@)),
    {
        let ghost params = form_text(self.form@);
        let mut body = String::new();
        let mut i: usize = 0;
        while i < self.form.len()
            invariant
                params == form_text(self.form@),
                i <= self.form@.len(),
                body@ == query_of(params.take(i as int)),
            decreases self.form@.len() - i,
        {
            let pair = encode_pair(self.form[i].0.as_str(), self.form[i].1.as_str());
            proof {
                assert(params.take(i + 1) =~= params.take(i as int).push(params[i as int]));
                if i > 0 {
                    lemma_query_push(params.take(i as int), params[i as int]);
                } else {
                    assert(params.take(1) =~= seq![params[0]]);
                }
            }
            if i > 0 {
                body.append("&");
            }
            body.append(pair.as_str());
            i += 1;
        }
        assert(params.take(i as int) =~= params);
        body
    }
}

impl Authorization {
    /// The URL that the user visits to grant the scopes.
    pub fn url(&self) -> (r: &str)
        ensures
            r@ == self@.url,
    {
        self.url.as_str()
    }

    /// The request that exchanges `code` for a token, when `state` matches
    /// the state of the authorization request. The redirect URI is the one
    /// of the request.
    pub fn token_request(&self, code: &str, state: Option<&str>) -> (r: Result<
        TokenRequest,
        StatesNotEqual,
    >)
        ensures
            r is Err <==> !states_match(self@.state, text_of(state)),
            r matches Ok(t) ==> t.url@ == token_endpoint() && t.authorization_header@
                == self@.authorization_header && form_text(t.form@) == seq![
                ("grant_type"@, "authorization_code"@),
                ("code"@, code@),
                ("redirect_uri"@, self@.redirect_uri),
            ],
    {
        if !states_equal(&self.state, state) {
            return Err(StatesNotEqual);
        }
        let mut form: Vec<(String, String)> = Vec::new();
        form.push(two_strings("grant_type", "authorization_code"));
        form.push(two_strings("code", code));
        form.push(two_strings("redirect_uri", self.redirect_uri.as_str()));
        assert(form_text(form@) =~= seq![
            ("grant_type"@, "authorization_code"@),
            ("code"@, code@),
            ("redirect_uri"@, self@.redirect_uri),
        ]);
        Ok(
            TokenRequest {
                url: String::from_str("https://accounts.spotify.com/api/token"),
                authorization_header: self.authorization_header.clone(),
                form,
            },
        )
    }

    /// The request that trades the refresh token of `token` for a new token;
    /// nothing when `token` carries no refresh token.
    pub fn refresh_request(&self, token: &Token) -> (r: Option<TokenRequest>)
        ensures
            r is None <==> token.refresh_token is None,
            r matches Some(t) ==> t.url@ == token_endpoint() && t.authorization_header@
                == self@.authorization_header && form_text(t.form@) == seq![
                ("grant_type"@, "refresh_token"@),
                ("refresh_token"@, token.refresh_token->0@),
            ],
    {
        match &token.refresh_token {
            None => None,
            Some(refresh) => {
                let mut form: Vec<(String, String)> = Vec::new();
                form.push(two_strings("grant_type", "refresh_token"));
                form.push(two_strings("refresh_token", refresh.as_str()));
                assert(form_text(form@) =~= seq![
                    ("grant_type"@, "refresh_token"@),
                    ("refresh_token"@, refresh@),
                ]);
                Some(
                    TokenRequest {
                        url: String::from_str("https://accounts.spotify.com/api/token"),
                        authorization_header: self.authorization_header.clone(),
                        form,
                    },
                )
            },
        }
    }
}

impl AuthorizationBuilder {
    /// A request for the client `client_id` whose token endpoint header is
    /// `authorization_header`, asking for the scopes `scope`; nothing else set.
    pub(crate) fn new(authorization_header: String, client_id: String, scope: Option<String>) -> (r:
        AuthorizationBuilder)
        ensures
            r@ == (AuthorizationBuilderView {
                authorization_header: authorization_header@,
                client_id: client_id@,
                response_type: None,
                redirect_uri: None,
                state: None,
                scope: owned_text_of(scope),
                show_dialog: None,
            }),
    {
        AuthorizationBuilder {
            authorization_header,
            client_id,
            response_type: None,
            redirect_uri: None,
            state: None,
            scope,
            show_dialog: None,
        }
    }

    /// Sets the response type, `code` when not set.
    pub fn response_type(self, kind: &str) -> (r: AuthorizationBuilder)
        ensures
            r@ == (AuthorizationBuilderView { response_type: Some(kind@), ..self@ }),
    {
        AuthorizationBuilder { response_type: Some(String::from_str(kind)), ..self }
    }

    /// Sets the URI that the provider redirects the user to.
    pub fn redirect_uri(self, redirect_uri: &str) -> (r: AuthorizationBuilder)
        ensures
            r@ == (AuthorizationBuilderView { redirect_uri: Some(redirect_uri@), ..self@ }),
    {
        AuthorizationBuilder { redirect_uri: Some(String::from_str(redirect_uri)), ..self }
    }

    /// Sets the anti-forgery state that the provider hands back.
    pub fn state(self, state: &str) -> (r: AuthorizationBuilder)
        ensures
            r@ == (AuthorizationBuilderView { state: Some(state@), ..self@ }),
    {
        AuthorizationBuilder { state: Some(String::from_str(state)), ..self }
    }

    /// Sets whether the provider shows the consent dialog again.
    pub fn show_dialog(self, show_dialog: bool) -> (r: AuthorizationBuilder)
        ensures
            r@ == (AuthorizationBuilderView { show_dialog: Some(show_dialog), ..self@ }),
    {
        AuthorizationBuilder { show_dialog: Some(show_dialog), ..self }
    }

    /// Finishes the request: fails when no redirect URI was set, and gives
    /// otherwise the authorize URL with its parameters in their fixed order.
    pub fn build(self) -> (r: Result<Authorization, MissingRequiredField>)
        ensures
            r is Err <==> self@.redirect_uri is None,
            r matches Ok(a) ==> a@ == (AuthorizationView {
                authorization_header: self@.authorization_header,
                url: authorize_url(self@),
                state: self@.state,
                redirect_uri: self@.redirect_uri->0,
            }),
    {
        let ghost view = self@;
        let AuthorizationBuilder {
            authorization_header,
            client_id,
            response_type,
            redirect_uri,
            state,
            scope,
            show_dialog,
        } = self;
        let redirect_uri = match redirect_uri {
            Some(uri) => uri,
            None => {
                return Err(MissingRequiredField);
            },
        };
        let kind: &str = match &response_type {
            Some(kind) => kind.as_str(),
            None => "code",
        };
        let mut query = encode_pair("client_id", client_id.as_str());
        let ghost mut params = seq![("client_id"@, client_id@)];
        push_pair(&mut query, "response_type", kind);
        proof {
            lemma_query_push(params, ("response_type"@, kind@));
            params = params.push(("response_type"@, kind@));
        }
        push_pair(&mut query, "redirect_uri", redirect_uri.as_str());
        proof {
            lemma_query_push(params, ("redirect_uri"@, redirect_uri@));
            params = params.push(("redirect_uri"@, redirect_uri@));
            assert(params =~= seq![
                ("client_id"@, client_id@),
                ("response_type"@, kind@),
                ("redirect_uri"@, redirect_uri@),
            ]);
        }
        match &state {
            Some(value) => {
                push_pair(&mut query, "state", value.as_str());
                proof {
                    lemma_query_push(params, ("state"@, value@));
                    params = params.push(("state"@, value@));
                }
            },
            None => {},
        }
        match &scope {
            Some(value) => {
                push_pair(&mut query, "scope", value.as_str());
                proof {
                    lemma_query_push(params, ("scope"@, value@));
                    params = params.push(("scope"@, value@));
                }
            },
            None => {},
        }
        match show_dialog {
            Some(show) => {
                push_pair(&mut query, "show_dialog", bool_as_str(show));
                proof {
                    lemma_query_push(params, ("show_dialog"@, bool_text(show)));
                    params = params.push(("show_dialog"@, bool_text(show)));
                }
            },
            None => {},
        }
        assert(params == authorize_params(view));
        let mut url = String::from_str("https://accounts.spotify.com/authorize?");
        url.append(query.as_str());
        Ok(Authorization { authorization_header, url, state, redirect_uri })
    }
}

} // verus!
