//! Authentication endpoint.

use vstd::prelude::*;

use crate::endpoints::{pair, Endpoint, Method};

verus! {

/// The response received from the Monzo API after a successful request to
/// refresh the authentication. The coordinator consumes `access_token` and
/// `refresh_token`; the other fields are passed through.
#[derive(Debug)]
pub struct Response {
    /// New access token for authorising requests against the Monzo API.
    pub access_token: String,

    /// The id of the client.
    pub client_id: String,

    /// Time (in seconds) until the access token expires.
    pub expires_in: i64,

    /// Refresh token. This token can be used to generate a new access/refresh
    /// token pair.
    pub refresh_token: String,

    /// The token type. Currently the only supported token type is
    /// "bearer_auth".
    pub token_type: String,

    /// The id of the current Monzo user.
    pub user_id: String,
}

/// The form body of a token refresh request.
#[derive(Debug)]
pub struct Form {
    /// Always the literal "refresh_token" grant.
    pub grant_type: String,
    /// The id of the client.
    pub client_id: String,
    /// The client secret.
    pub client_secret: String,
    /// The current refresh token, to be exchanged.
    pub refresh_token: String,
}

impl Form {
    /// A refresh form for the given credentials, with the "refresh_token"
    /// grant type.
    pub fn new(client_id: &str, client_secret: &str, refresh_token: &str) -> (f: Form)
        ensures
            f.grant_type@ == "refresh_token"@,
            f.client_id@ == client_id@,
            f.client_secret@ == client_secret@,
            f.refresh_token@ == refresh_token@,
    {
        Form {
            grant_type: String::from_str("refresh_token"),
            client_id: String::from_str(client_id),
            client_secret: String::from_str(client_secret),
            refresh_token: String::from_str(refresh_token),
        }
    }
}

/// A request for new authentication tokens.
#[derive(Debug)]
#[must_use]
pub struct Request {
    /// The credentials posted to the token endpoint.
    pub form: Form,
}

impl Request {
    /// A refresh request carrying the given credentials.
    pub fn new(client_id: &str, client_secret: &str, refresh_token: &str) -> (r: Request)
        ensures
            r.form.grant_type@ == "refresh_token"@,
            r.form.client_id@ == client_id@,
            r.form.client_secret@ == client_secret@,
            r.form.refresh_token@ == refresh_token@,
    {
        Request { form: Form::new(client_id, client_secret, refresh_token) }
    }

    /// The descriptor of the refresh call: an unauthenticated `POST` of the
    /// four credential form fields to the token endpoint.
    pub fn to_endpoint(&self) -> (e: Endpoint)
        ensures
            e.method == Method::Post,
            e.path@ == "/oauth2/token"@,
            !e.auth_required,
            e.query@.len() == 0,
            e.json@.len() == 0,
            e.form@.len() == 4,
            e.form@[0].0@ == "grant_type"@,
            e.form@[0].1@ == self.form.grant_type@,
            e.form@[1].0@ == "client_id"@,
            e.form@[1].1@ == self.form.client_id@,
            e.form@[2].0@ == "client_secret"@,
            e.form@[2].1@ == self.form.client_secret@,
            e.form@[3].0@ == "refresh_token"@,
            e.form@[3].1@ == self.form.refresh_token@,
    {
        let mut e = Endpoint::new(Method::Post, String::from_str("/oauth2/token"));
        e.auth_required = false;
        e.form.push(pair("grant_type", self.form.grant_type.as_str()));
        e.form.push(pair("client_id", self.form.client_id.as_str()));
        e.form.push(pair("client_secret", self.form.client_secret.as_str()));
        e.form.push(pair("refresh_token", self.form.refresh_token.as_str()));
        e
    }
}

} // verus!
