//! The authorization capability injected into the client.
//!
//! The client places whatever string the provider returns verbatim into
//! the request's `Authorization` header; the string is opaque to the
//! library. An environment-backed provider lives with the embedding
//! application, since reading the environment is outside the library.

use vstd::prelude::*;

verus! {

/// A capability supplying an opaque authorization string per request.
/// Implementations are injected by the caller; the library never
/// inspects what they return.
pub trait AuthorizationProvider {
    fn get_authorization(&self) -> String;
}

/// An authorization provider that returns a string fixed at
/// construction.
#[derive(Debug, Clone)]
pub struct StaticAuthorizationProvider {
    pub api_key: String,
}

impl StaticAuthorizationProvider {
    pub fn new(api_key: String) -> (r: Self)
        ensures
            r.api_key == api_key,
    {
        Self { api_key }
    }
}

impl AuthorizationProvider for StaticAuthorizationProvider {
    /// Returns exactly the string fixed at construction.
    fn get_authorization(&self) -> (r: String)
        ensures
            r@ == self.api_key@,
    {
        self.api_key.clone()
    }
}

} // verus!
