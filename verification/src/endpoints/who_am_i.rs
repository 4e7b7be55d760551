//! Information about the current session.

use vstd::prelude::*;

use crate::endpoints::{Endpoint, Method};

verus! {

/// A request for information about the current session.
#[derive(Debug)]
#[must_use]
pub struct Request;

impl Request {
    /// The descriptor of the call: an authenticated `GET` of `/ping/whoami`
    /// with no parameters.
    pub fn to_endpoint(&self) -> (e: Endpoint)
        ensures
            e.method == Method::Get,
            e.path@ == "/ping/whoami"@,
            e.auth_required,
            e.query@.len() == 0,
            e.form@.len() == 0,
            e.json@.len() == 0,
    {
        Endpoint::new(Method::Get, String::from_str("/ping/whoami"))
    }
}

/// The response returned by the `who_am_i` method.
#[derive(Debug)]
pub struct Response {
    /// Whether the current user is authenticated.
    pub authenticated: bool,

    /// The client ID.
    pub client_id: String,

    /// The unique identifier of the current user.
    pub user_id: String,
}

} // verus!
