//! Inner clients that encapsulate the different authentication handling
//! strategies that the Monzo API supports: a quick client that only holds an
//! access token, and a refreshable client that also holds refresh
//! credentials, the Refresh Gate, and the ghost history of gate events.

use vstd::prelude::*;

use crate::client::protocol::{
    gate_held_after, lemma_refresh_deduplicated, lemma_tokens_never_torn, refresh_call_count,
    release_count, tokens_after, valid_history, RefreshEvent,
};
use crate::endpoints::auth;
use crate::error::Error;

verus! {

/// The abstract state of a [`Quick`] client.
pub struct QuickView {
    pub access_token: Seq<char>,
    pub url: Seq<char>,
}

/// A quick and dirty Monzo API client.
///
/// This client is easy to construct, because all you need is an access token.
/// This client is not capable of refreshing the access token, hence this must
/// be managed externally.
#[derive(Debug)]
#[must_use]
pub struct Quick {
    access_token: String,
    url: String,
}

impl View for Quick {
    type V = QuickView;

    closed spec fn view(&self) -> QuickView {
        QuickView { access_token: self.access_token@, url: self.url@ }
    }
}

impl Quick {
    /// A new quick client for the given access token, against the production
    /// API base URL.
    pub fn new(access_token: String) -> (c: Quick)
        ensures
            c@.access_token == access_token@,
            c@.url == "https://api.monzo.com"@,
    {
        Quick { access_token, url: String::from_str("https://api.monzo.com") }
    }

    /// Return a reference to the current access token.
    #[must_use]
    pub fn access_token(&self) -> (t: &String)
        ensures
            t@ == self@.access_token,
    {
        &self.access_token
    }

    /// Manually set the access token.
    pub fn set_access_token(&mut self, access_token: String)
        ensures
            final(self)@.access_token == access_token@,
            final(self)@.url == old(self)@.url,
    {
        self.access_token = access_token;
    }

    /// The base URL of the API.
    #[must_use]
    pub fn url(&self) -> (u: &String)
        ensures
            u@ == self@.url,
    {
        &self.url
    }
}

/// The abstract state of a [`Refreshable`] client: the credential record,
/// the Refresh Gate, and the history of gate events.
pub struct RefreshableView {
    pub access_token: Seq<char>,
    pub url: Seq<char>,
    pub client_id: Seq<char>,
    pub client_secret: Seq<char>,
    pub refresh_token: Seq<char>,
    pub refresh_in_flight: bool,
    pub history: Seq<RefreshEvent>,
}

impl RefreshableView {
    /// Well-formedness: the recorded history is one the protocol allows, and
    /// the Refresh Gate is held exactly when the history says so.
    pub open spec fn wf(self) -> bool {
        &&& valid_history(self.history)
        &&& self.refresh_in_flight == gate_held_after(self.history)
    }

    /// The same state with another access token.
    pub open spec fn with_access_token(self, access_token: Seq<char>) -> RefreshableView {
        RefreshableView { access_token, ..self }
    }
}

/// A full-featured Monzo API client.
///
/// This client holds the credentials to refresh its own access token when it
/// expires, and the Refresh Gate that keeps concurrent refresh attempts
/// from racing: at most one refresh call is in flight at any instant, and
/// both
/// tokens are replaced together, as a pair, from one refresh response.
#[must_use]
pub struct Refreshable {
    quick_client: Quick,

    client_id: String,
    client_secret: String,
    refresh_token: String,

    /// The Refresh Gate: true while a refresh attempt is in flight.
    refresh_in_flight: bool,

    /// The Refresh Gate events of this client, oldest first.
    history: Ghost<Seq<RefreshEvent>>,
}

impl View for Refreshable {
    type V = RefreshableView;

    closed spec fn view(&self) -> RefreshableView {
        RefreshableView {
            access_token: self.quick_client@.access_token,
            url: self.quick_client@.url,
            client_id: self.client_id@,
            client_secret: self.client_secret@,
            refresh_token: self.refresh_token@,
            refresh_in_flight: self.refresh_in_flight,
            history: self.history@,
        }
    }
}

impl Refreshable {
    /// Upgrade a quick client into a refreshable one by adding refresh
    /// credentials. The Refresh Gate starts open.
    pub fn from_quick_client(
        quick_client: Quick,
        client_id: String,
        client_secret: String,
        refresh_token: String,
    ) -> (c: Refreshable)
        ensures
            c@.access_token == quick_client@.access_token,
            c@.url == quick_client@.url,
            c@.client_id == client_id@,
            c@.client_secret == client_secret@,
            c@.refresh_token == refresh_token@,
            !c@.refresh_in_flight,
            c@.history == Seq::<RefreshEvent>::empty(),
            c@.wf(),
    {
        Refreshable {
            quick_client,
            client_id,
            client_secret,
            refresh_token,
            refresh_in_flight: false,
            history: Ghost(Seq::empty()),
        }
    }

    /// Return a reference to the current access token.
    #[must_use]
    pub fn access_token(&self) -> (t: &String)
        ensures
            t@ == self@.access_token,
    {
        self.quick_client.access_token()
    }

    /// Manually set the access token.
    pub fn set_access_token(&mut self, access_token: String)
        ensures
            final(self)@ == old(self)@.with_access_token(access_token@),
    {
        self.quick_client.set_access_token(access_token);
    }

    /// The base URL of the API.
    #[must_use]
    pub fn url(&self) -> (u: &String)
        ensures
            u@ == self@.url,
    {
        self.quick_client.url()
    }

    /// Get a reference to the client id.
    #[must_use]
    pub fn client_id(&self) -> (s: &String)
        ensures
            s@ == self@.client_id,
    {
        &self.client_id
    }

    /// Get a reference to the client secret.
    #[must_use]
    pub fn client_secret(&self) -> (s: &String)
        ensures
            s@ == self@.client_secret,
    {
        &self.client_secret
    }

    /// Get a reference to the refresh token.
    #[must_use]
    pub fn refresh_token(&self) -> (s: &String)
        ensures
            s@ == self@.refresh_token,
    {
        &self.refresh_token
    }

    /// The refresh request that would exchange this client's current
    /// credentials for a new token pair.
    #[must_use]
    pub fn get_refresh_tokens(&self) -> (r: auth::Request)
        ensures
            r.form.grant_type@ == "refresh_token"@,
            r.form.client_id@ == self@.client_id,
            r.form.client_secret@ == self@.client_secret,
            r.form.refresh_token@ == self@.refresh_token,
    {
        auth::Request::new(
            self.client_id.as_str(),
            self.client_secret.as_str(),
            self.refresh_token.as_str(),
        )
    }

    /// Try to acquire the Refresh Gate without blocking.
    ///
    /// Exactly one of two things happens: the Refresh Gate was open and this
    /// caller now holds it (it must make one refresh call and then
    /// [`complete_refresh`](Self::complete_refresh)), or another task already
    /// holds the Refresh Gate and the caller must not make a redundant
    /// refresh call.
    pub fn try_begin_refresh(&mut self) -> (granted: bool)
        requires
            old(self)@.wf(),
        ensures
            granted == !old(self)@.refresh_in_flight,
            final(self)@.refresh_in_flight,
            final(self)@.access_token == old(self)@.access_token,
            final(self)@.url == old(self)@.url,
            final(self)@.client_id == old(self)@.client_id,
            final(self)@.client_secret == old(self)@.client_secret,
            final(self)@.refresh_token == old(self)@.refresh_token,
            final(self)@.history == old(self)@.history.push(
                if granted {
                    RefreshEvent::Acquired
                } else {
                    RefreshEvent::Deferred
                },
            ),
            final(self)@.wf(),
    {
        let granted = !self.refresh_in_flight;
        self.refresh_in_flight = true;
        proof {
            let event = if granted {
                RefreshEvent::Acquired
            } else {
                RefreshEvent::Deferred
            };
            self.history@ = self.history@.push(event);
            assert(self.history@.drop_last() =~= old(self)@.history);
        }
        granted
    }

    /// Finish a refresh attempt with the outcome of the refresh network call,
    /// releasing the Refresh Gate on both exits.
    ///
    /// On success both tokens are replaced together from the one response;
    /// on failure the credential record is left untouched and the error is
    /// surfaced as `RefreshFailed`.
    pub fn complete_refresh(&mut self, outcome: Result<auth::Response, Error>) -> (r: Result<
        (),
        Error,
    >)
        requires
            old(self)@.wf(),
            old(self)@.refresh_in_flight,
        ensures
            !final(self)@.refresh_in_flight,
            final(self)@.wf(),
            final(self)@.url == old(self)@.url,
            final(self)@.client_id == old(self)@.client_id,
            final(self)@.client_secret == old(self)@.client_secret,
            match outcome {
                Ok(resp) => {
                    &&& r is Ok
                    &&& final(self)@.access_token == resp.access_token@
                    &&& final(self)@.refresh_token == resp.refresh_token@
                    &&& final(self)@.history == old(self)@.history.push(
                        RefreshEvent::Committed {
                            access: resp.access_token@,
                            refresh: resp.refresh_token@,
                        },
                    )
                },
                Err(_) => {
                    &&& r == Err::<(), Error>(Error::RefreshFailed)
                    &&& final(self)@.access_token == old(self)@.access_token
                    &&& final(self)@.refresh_token == old(self)@.refresh_token
                    &&& final(self)@.history == old(self)@.history.push(RefreshEvent::Aborted)
                },
            },
    {
        self.refresh_in_flight = false;
        match outcome {
            Ok(resp) => {
                proof {
                    self.history@ = self.history@.push(
                        RefreshEvent::Committed {
                            access: resp.access_token@,
                            refresh: resp.refresh_token@,
                        },
                    );
                    assert(self.history@.drop_last() =~= old(self)@.history);
                }
                self.quick_client.set_access_token(resp.access_token);
                self.refresh_token = resp.refresh_token;
                Ok(())
            },
            Err(_) => {
                proof {
                    self.history@ = self.history@.push(RefreshEvent::Aborted);
                    assert(self.history@.drop_last() =~= old(self)@.history);
                }
                Err(Error::RefreshFailed)
            },
        }
    }

    /// Apply a successful refresh response to this client's credential
    /// record: both tokens are replaced atomically, as a pair. Returns the
    /// time (in seconds) until the new access token expires.
    ///
    /// This is the manual counterpart of the coordinator's refresh path and
    /// must not run while another refresh is in flight.
    pub fn refresh_auth(&mut self, response: auth::Response) -> (expires_in: i64)
        requires
            old(self)@.wf(),
            !old(self)@.refresh_in_flight,
        ensures
            expires_in == response.expires_in,
            !final(self)@.refresh_in_flight,
            final(self)@.wf(),
            final(self)@.access_token == response.access_token@,
            final(self)@.refresh_token == response.refresh_token@,
            final(self)@.url == old(self)@.url,
            final(self)@.client_id == old(self)@.client_id,
            final(self)@.client_secret == old(self)@.client_secret,
    {
        let expires_in = response.expires_in;
        let _ = self.try_begin_refresh();
        let _ = self.complete_refresh(Ok(response));
        expires_in
    }

    /// Whether a refresh attempt is in flight: the state of the Refresh
    /// Gate.
    #[must_use]
    pub fn is_refresh_in_flight(&self) -> (b: bool)
        ensures
            b == self@.refresh_in_flight,
    {
        self.refresh_in_flight
    }
}

/// Refresh deduplication, on a client: however many tasks sharing this
/// client hit an expired token, as long as no refresh attempt has finished
/// yet, at most one refresh network call has been made — every other task
/// deferred to it.
pub proof fn lemma_client_refresh_deduplicated(c: RefreshableView)
    requires
        c.wf(),
        release_count(c.history) == 0,
    ensures
        refresh_call_count(c.history) <= 1,
{
    lemma_refresh_deduplicated(c.history);
}

/// Token-pair atomicity, on a client: whatever Refresh Gate events a client with
/// the initial pair `(access0, refresh0)` has been through, the pair the
/// protocol leaves behind either is still the initial one or comes whole
/// from a single committed refresh response — never half from one response
/// and half from another.
pub proof fn lemma_client_tokens_never_torn(
    c: RefreshableView,
    access0: Seq<char>,
    refresh0: Seq<char>,
)
    ensures
        tokens_after(c.history, access0, refresh0) == (access0, refresh0) || exists|i: int|
            {
                &&& 0 <= i < c.history.len()
                &&& #[trigger] c.history[i] matches RefreshEvent::Committed { access, refresh }
                &&& tokens_after(c.history, access0, refresh0) == (access, refresh)
            },
{
    lemma_tokens_never_torn(c.history, access0, refresh0);
}

} // verus!
