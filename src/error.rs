use vstd::prelude::*;

use crate::scope::Scope;

verus! {

/// The scopes granted in a token do not include every scope that the client
/// declared.
#[derive(Debug, Clone, Copy, PartialEq, Eq, Hash, Structural)]
pub struct ScopeMismatchError;

/// The state handed back with an authorization response differs from the
/// state sent with the request.
#[derive(Debug, Clone, Copy, PartialEq, Eq, Hash, Structural)]
pub struct StatesNotEqual;

/// An authorization request was finished without a redirect URI.
#[derive(Debug, Clone, Copy, PartialEq, Eq, Hash, Structural)]
pub struct MissingRequiredField;

/// An operation was asked of a session whose scopes do not include the one
/// that the operation needs.
#[derive(Debug, Clone, Copy, PartialEq, Eq, Hash, Structural)]
pub struct MissingScopeError {
    pub scope: Scope,
}

} // verus!
