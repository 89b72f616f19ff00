//! The pass-through middleware marker and the extraction of the caller's identity.

use vstd::prelude::*;

pub mod auth;

verus! {

/// The marker that installs the authentication middleware.
#[derive(Debug, Clone, Copy, PartialEq, Eq)]
pub struct Auth;

impl Auth {
    /// The marker.
    pub fn new() -> (r: Self)
        ensures
            r == Auth,
    {
        Auth
    }

    /// Wraps `service`. The middleware adds nothing: every request is
    /// handed to `service` as it came.
    pub fn new_transform<S>(&self, service: S) -> (r: AuthMiddleware<S>)
        ensures
            r.service == service,
    {
        AuthMiddleware { service }
    }
}

/// A service wrapped by [`Auth`].
#[derive(Debug, Clone, PartialEq, Eq)]
pub struct AuthMiddleware<S> {
    pub service: S,
}

impl<S> AuthMiddleware<S> {
    /// The wrapped service, to which every call is handed on.
    pub fn into_inner(self) -> (r: S)
        ensures
            r == self.service,
    {
        self.service
    }
}

} // verus!
