use vstd::prelude::*;
use vstd::string::*;

pub mod authorization;
pub mod error;
pub mod grant;
pub mod model;
pub mod scope;
pub mod spotify;

use crate::authorization::{AuthorizationBuilder, AuthorizationBuilderView};
use crate::error::{MissingScopeError, ScopeMismatchError};
use crate::grant::{granted_covers, grants, split_spaces};
use crate::model::Token;
use crate::scope::{joined_names_of, Scope, ScopeList};

verus! {

/// The standard, padded Base64 encoding of `bytes`.
pub uninterp spec fn base64_standard(bytes: Seq<u8>) -> Seq<char>;

/// Relies on `base64::encode_config_buf` with `base64::STANDARD`: appends the
/// padded standard Base64 encoding of the bytes of `input` to `buf`.
#[verifier::external_body]
fn append_base64(input: &str, buf: &mut String)
    ensures
        final(buf)@ == old(buf)@ + base64_standard(input.spec_bytes()),
{
    base64::encode_config_buf(input, base64::STANDARD, buf);
}

/// The `Authorization` header of the token endpoint for a client with `id`
/// and `secret`: HTTP Basic credentials `id:secret`.
pub open spec fn basic_header(id: Seq<char>, secret: Seq<char>) -> Seq<char> {
    "Basic "@ + base64_standard(vstd::utf8::encode_utf8(id + ":"@ + secret))
}

/// An application registered with the provider, with the scopes that it
/// declares. The header for the token endpoint is computed once.
pub struct Client {
    id: String,
    authorization_header: String,
    scopes: ScopeList,
}

/// A session whose access token was checked to grant every scope of its
/// list. It can only be had from [`Client::with_access_token`].
pub struct Spotify {
    access_token: String,
    scopes: ScopeList,
}

impl Client {
    /// The client id.
    pub closed spec fn spec_id(&self) -> Seq<char> {
        self.id@
    }

    /// The `Authorization` header sent to the token endpoint.
    pub closed spec fn spec_authorization_header(&self) -> Seq<char> {
        self.authorization_header@
    }

    /// The scopes that the client declares.
    pub closed spec fn spec_scopes(&self) -> Seq<scope::Scope> {
        self.scopes@
    }

    /// A client with the given id, secret and declared scopes.
    pub fn new(id: &str, secret: &str, scopes: ScopeList) -> (r: Client)
        ensures
            r.spec_id() == id@,
            r.spec_authorization_header() == basic_header(id@, secret@),
            r.spec_scopes() == scopes@,
    {
        let mut credentials = String::from_str(id);
        credentials.append(":");
        credentials.append(secret);
        let mut header = String::from_str("Basic ");
        append_base64(credentials.as_str(), &mut header);
        Client { id: String::from_str(id), authorization_header: header, scopes }
    }

    /// A session for `token`, when the scopes that it grants include every
    /// scope that this client declared.
    pub fn with_access_token(&self, token: &Token) -> (r: Result<Spotify, ScopeMismatchError>)
        ensures
            r is Ok <==> grants(split_spaces(token.scope@), self.spec_scopes()),
            r matches Ok(s) ==> s.spec_access_token() == token.access_token@ && s.spec_scopes()
                == self.spec_scopes(),
    {
        if granted_covers(token.scope.as_str(), &self.scopes) {
            Ok(
                Spotify {
                    access_token: token.access_token.clone(),
                    scopes: self.scopes.copied(),
                },
            )
        } else {
            Err(ScopeMismatchError)
        }
    }
}

impl Client {
    /// A new authorization request for this client, asking for its declared
    /// scopes, or for no scope parameter at all when it declared none.
    pub fn authorization(&self) -> (r: AuthorizationBuilder)
        ensures
            r@ == (AuthorizationBuilderView {
                authorization_header: self.spec_authorization_header(),
                client_id: self.spec_id(),
                response_type: None,
                redirect_uri: None,
                state: None,
                scope: joined_names_of(self.spec_scopes()),
                show_dialog: None,
            }),
    {
        let scope = self.scopes.joined_names();
        AuthorizationBuilder::new(self.authorization_header.clone(), self.id.clone(), scope)
    }
}

impl Spotify {
    /// The access token of the session.
    pub closed spec fn spec_access_token(&self) -> Seq<char> {
        self.access_token@
    }

    /// The scopes that the access token was checked to grant.
    pub closed spec fn spec_scopes(&self) -> Seq<scope::Scope> {
        self.scopes@
    }

    /// Checked before every operation: succeeds when the session's scopes
    /// include `scope`, and names the missing scope otherwise.
    pub fn require(&self, scope: Scope) -> (r: Result<(), MissingScopeError>)
        ensures
            r is Ok <==> self.spec_scopes().contains(scope),
            r matches Err(e) ==> e.scope == scope,
    {
        if self.scopes.contains(scope) {
            Ok(())
        } else {
            Err(MissingScopeError { scope })
        }
    }

    /// The `Authorization` header of the API calls of this session.
    pub fn bearer_header(&self) -> (r: String)
        ensures
            r@ == "Bearer "@ + self.spec_access_token(),
    {
        let mut header = String::from_str("Bearer ");
        header.append(self.access_token.as_str());
        header
    }
}

} // verus!
