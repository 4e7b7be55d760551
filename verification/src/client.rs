//! Monzo API clients: response resolution, the authenticated-request
//! coordinator, and the quick/refreshable client pair.

use vstd::prelude::*;

pub mod flow;
pub mod inner;
pub mod protocol;
pub mod transport;

use crate::client::flow::{FirstDecision, RequestFlow};
use crate::client::inner::{Quick, QuickView, Refreshable, RefreshableView};
use crate::client::protocol::RefreshEvent;
use crate::client::transport::{ScriptedTransport, TransportView};
use crate::endpoints::utils::spec_alphanumeric;
use crate::endpoints::{accounts, auth, balance, feed_items, pots, transactions, who_am_i, Endpoint};
use crate::error::{classify_status, Error};

verus! {

/// What one executor round trip yields: the raw HTTP status and body, or a
/// transport error.
pub type WireResult = core::result::Result<(u16, Vec<u8>), Error>;

/// How a raw response resolves: a success status passes the body through for
/// decoding, any other status is classified into the error taxonomy.
pub open spec fn spec_handle_response(status: u16, body: Seq<u8>) -> core::result::Result<
    Seq<u8>,
    Error,
> {
    if 200 <= status <= 299 {
        Ok(body)
    } else {
        Err(classify_status(status))
    }
}

/// How a whole executor outcome resolves: a transport error passes through.
pub open spec fn spec_resolve(result: WireResult) -> core::result::Result<Seq<u8>, Error> {
    match result {
        Ok((status, body)) => spec_handle_response(status, body@),
        Err(e) => Err(e),
    }
}

/// The abstract value of a resolved outcome.
pub open spec fn outcome_view(r: core::result::Result<Vec<u8>, Error>) -> core::result::Result<
    Seq<u8>,
    Error,
> {
    match r {
        Ok(body) => Ok(body@),
        Err(e) => Err(e),
    }
}

/// Resolve a raw response: bytes of a success pass through to the decoder,
/// 401 becomes `AuthExpired`, other 4xx and 5xx become client and server
/// errors.
pub fn handle_response(status: u16, body: Vec<u8>) -> (r: core::result::Result<Vec<u8>, Error>)
    ensures
        outcome_view(r) == spec_handle_response(status, body@),
{
    if 200 <= status && status <= 299 {
        Ok(body)
    } else {
        Err(Error::from(status))
    }
}

/// Resolve a whole executor outcome, passing transport errors through.
pub fn resolve(result: WireResult) -> (r: core::result::Result<Vec<u8>, Error>)
    ensures
        outcome_view(r) == spec_resolve(result),
{
    match result {
        Ok((status, body)) => handle_response(status, body),
        Err(e) => Err(e),
    }
}

/// The bearer token an executor call carries: the client's current access
/// token for an authenticated descriptor, nothing otherwise.
pub open spec fn spec_bearer(auth_required: bool, access_token: Seq<char>) -> Option<Seq<char>> {
    if auth_required {
        Some(access_token)
    } else {
        None
    }
}

/// The exchange performed by the Token Refresh Coordinator, relating the
/// client and transport before and after one [`ensure_fresh_token`] step.
///
/// If the Refresh Gate was already held, the caller defers: no refresh call,
/// no change to the credentials, a success-like return. If the caller
/// acquired the Refresh Gate, exactly one refresh outcome is consumed, the
/// token pair is replaced atomically on success and left untouched on
/// failure, and the Refresh Gate is released on both exits.
pub open spec fn spec_ensure_fresh_token(
    c0: RefreshableView,
    t0: TransportView,
    c1: RefreshableView,
    t1: TransportView,
    r: core::result::Result<(), Error>,
) -> bool {
    &&& c1.url == c0.url
    &&& c1.client_id == c0.client_id
    &&& c1.client_secret == c0.client_secret
    &&& t1.responses == t0.responses
    &&& t1.tokens == t0.tokens
    &&& if c0.refresh_in_flight {
        &&& r is Ok
        &&& t1.refresh_outcomes == t0.refresh_outcomes
        &&& c1.refresh_in_flight
        &&& c1.access_token == c0.access_token
        &&& c1.refresh_token == c0.refresh_token
        &&& c1.history == c0.history.push(RefreshEvent::Deferred)
    } else {
        &&& t0.refresh_outcomes.len() > 0
        &&& t1.refresh_outcomes == t0.refresh_outcomes.remove(0)
        &&& !c1.refresh_in_flight
        &&& match t0.refresh_outcomes[0] {
            Ok(resp) => {
                &&& r is Ok
                &&& c1.access_token == resp.access_token@
                &&& c1.refresh_token == resp.refresh_token@
                &&& c1.history == c0.history.push(RefreshEvent::Acquired).push(
                    RefreshEvent::Committed {
                        access: resp.access_token@,
                        refresh: resp.refresh_token@,
                    },
                )
            },
            Err(_) => {
                &&& r == Err::<(), Error>(Error::RefreshFailed)
                &&& c1.access_token == c0.access_token
                &&& c1.refresh_token == c0.refresh_token
                &&& c1.history == c0.history.push(RefreshEvent::Acquired).push(
                    RefreshEvent::Aborted,
                )
            },
        }
    }
}

/// Ensure a fresh access token, deduplicating concurrent refresh attempts.
///
/// The caller tries to acquire the Refresh Gate without blocking. The task
/// that acquires it performs one refresh call, commits or aborts, and
/// releases the Refresh Gate on all exit paths. A task that finds the
/// Refresh Gate occupied
/// performs no redundant refresh and does not fail: someone else is handling
/// it, and the caller proceeds to retry with whatever token is current.
pub fn ensure_fresh_token(client: &mut Refreshable, transport: &mut ScriptedTransport) -> (r:
    core::result::Result<(), Error>)
    requires
        old(client)@.wf(),
        !old(client)@.refresh_in_flight ==> old(transport)@.refresh_outcomes.len() > 0,
    ensures
        final(client)@.wf(),
        spec_ensure_fresh_token(
            old(client)@,
            old(transport)@,
            final(client)@,
            final(transport)@,
            r,
        ),
{
    let granted = client.try_begin_refresh();
    if !granted {
        return Ok(());
    }
    let request = client.get_refresh_tokens();
    let outcome = transport.refresh(&request);
    client.complete_refresh(outcome)
}

/// The exchange performed by the Authenticated Request Coordinator, relating
/// the client and transport before and after one [`execute_with_refresh`].
///
/// If the first outcome resolves to anything but `AuthExpired`, it is the
/// result, one executor call was made, no refresh happened and the client is
/// untouched. Otherwise exactly two executor calls were made, the refresh
/// step ran in between as [`spec_ensure_fresh_token`] describes, the retry
/// carried the then-current access token, and the second outcome is the
/// result unchanged.
pub open spec fn spec_execute_with_refresh(
    c0: RefreshableView,
    t0: TransportView,
    auth_required: bool,
    c1: RefreshableView,
    t1: TransportView,
    r: core::result::Result<Vec<u8>, Error>,
) -> bool {
    let first = spec_resolve(t0.responses[0]);
    &&& c1.url == c0.url
    &&& c1.client_id == c0.client_id
    &&& c1.client_secret == c0.client_secret
    &&& if first != Err::<Seq<u8>, Error>(Error::AuthExpired) {
        &&& outcome_view(r) == first
        &&& t1.responses == t0.responses.remove(0)
        &&& t1.refresh_outcomes == t0.refresh_outcomes
        &&& t1.tokens == t0.tokens.push(spec_bearer(auth_required, c0.access_token))
        &&& c1 == c0
    } else {
        &&& outcome_view(r) == spec_resolve(t0.responses[1])
        &&& t1.responses == t0.responses.remove(0).remove(0)
        &&& t1.tokens == t0.tokens.push(spec_bearer(auth_required, c0.access_token)).push(
            spec_bearer(auth_required, c1.access_token),
        )
        &&& if c0.refresh_in_flight {
            &&& t1.refresh_outcomes == t0.refresh_outcomes
            &&& c1.refresh_in_flight
            &&& c1.access_token == c0.access_token
            &&& c1.refresh_token == c0.refresh_token
            &&& c1.history == c0.history.push(RefreshEvent::Deferred)
        } else {
            &&& t0.refresh_outcomes.len() > 0
            &&& t1.refresh_outcomes == t0.refresh_outcomes.remove(0)
            &&& !c1.refresh_in_flight
            &&& match t0.refresh_outcomes[0] {
                Ok(resp) => {
                    &&& c1.access_token == resp.access_token@
                    &&& c1.refresh_token == resp.refresh_token@
                    &&& c1.history == c0.history.push(RefreshEvent::Acquired).push(
                        RefreshEvent::Committed {
                            access: resp.access_token@,
                            refresh: resp.refresh_token@,
                        },
                    )
                },
                Err(_) => {
                    &&& c1.access_token == c0.access_token
                    &&& c1.refresh_token == c0.refresh_token
                    &&& c1.history == c0.history.push(RefreshEvent::Acquired).push(
                        RefreshEvent::Aborted,
                    )
                },
            }
        }
    }
}

/// Execute one authenticated request against a refreshable client: execute,
/// and on an `AuthExpired` classification refresh (or defer to a concurrent
/// refresh) and retry exactly once, returning the second outcome unchanged.
/// Every other first outcome is terminal and returned unchanged with no
/// refresh call ever made.
pub fn execute_with_refresh(
    client: &mut Refreshable,
    endpoint: &Endpoint,
    transport: &mut ScriptedTransport,
) -> (r: core::result::Result<Vec<u8>, Error>)
    requires
        old(client)@.wf(),
        old(transport)@.responses.len() > 0,
        spec_resolve(old(transport)@.responses[0]) == Err::<Seq<u8>, Error>(Error::AuthExpired)
            ==> old(transport)@.responses.len() >= 2,
        spec_resolve(old(transport)@.responses[0]) == Err::<Seq<u8>, Error>(Error::AuthExpired)
            && !old(client)@.refresh_in_flight ==> old(transport)@.refresh_outcomes.len() > 0,
    ensures
        final(client)@.wf(),
        spec_execute_with_refresh(
            old(client)@,
            old(transport)@,
            endpoint.auth_required,
            final(client)@,
            final(transport)@,
            r,
        ),
{
    let mut request_flow = RequestFlow::new(true);
    request_flow.start();
    let token = if endpoint.auth_required {
        Some(client.access_token())
    } else {
        None
    };
    let first = transport.execute(endpoint, token);
    match request_flow.on_first_result(first) {
        FirstDecision::Terminal(outcome) => outcome,
        FirstDecision::RefreshAndRetry => {
            let _refresh_outcome = ensure_fresh_token(client, transport);
            request_flow.on_refresh_complete();
            let token = if endpoint.auth_required {
                Some(client.access_token())
            } else {
                None
            };
            let second = transport.execute(endpoint, token);
            request_flow.on_retry_result(second)
        },
    }
}

/// The two authentication handling strategies a [`Client`] can hold.
enum InnerClient {
    Quick(Quick),
    Refreshable(Refreshable),
}

/// The abstract state of a [`Client`].
pub enum ClientView {
    Quick(QuickView),
    Refreshable(RefreshableView),
}

impl ClientView {
    /// Well-formedness: a refreshable client's Refresh Gate history is
    /// consistent.
    pub open spec fn wf(self) -> bool {
        match self {
            ClientView::Quick(_) => true,
            ClientView::Refreshable(c) => c.wf(),
        }
    }

    /// The current access token, whichever strategy the client holds.
    pub open spec fn access_token(self) -> Seq<char> {
        match self {
            ClientView::Quick(q) => q.access_token,
            ClientView::Refreshable(c) => c.access_token,
        }
    }

    /// The base URL, whichever strategy the client holds.
    pub open spec fn url(self) -> Seq<char> {
        match self {
            ClientView::Quick(q) => q.url,
            ClientView::Refreshable(c) => c.url,
        }
    }
}

/// A Monzo API client: constructed "quick" with only an access token and no
/// refresh capability, or upgraded to a refreshable client that exchanges
/// its refresh token for a fresh pair whenever the access token expires.
#[must_use]
pub struct Client {
    inner_client: InnerClient,
}

impl View for Client {
    type V = ClientView;

    closed spec fn view(&self) -> ClientView {
        match self.inner_client {
            InnerClient::Quick(ref q) => ClientView::Quick(q@),
            InnerClient::Refreshable(ref c) => ClientView::Refreshable(c@),
        }
    }
}

impl Client {
    /// Create a new Monzo client.
    ///
    /// This client needs only an access token to authenticate against the
    /// Monzo API, but is incapable of refreshing its access if the token
    /// expires: an auth failure is surfaced directly, with no retry.
    pub fn new(access_token: String) -> (c: Client)
        ensures
            c@ matches ClientView::Quick(q) && q.access_token == access_token@ && q.url
                == "https://api.monzo.com"@,
            c@.wf(),
    {
        Client { inner_client: InnerClient::Quick(Quick::new(access_token)) }
    }

    /// Upgrade a quick client by adding refresh tokens.
    ///
    /// A client that has refresh tokens is able to refresh its
    /// authentication when the access token expires.
    pub fn with_refresh_tokens(
        self,
        client_id: String,
        client_secret: String,
        refresh_token: String,
    ) -> (c: Client)
        requires
            self@ is Quick,
        ensures
            c@ matches ClientView::Refreshable(rc) && rc == (RefreshableView {
                access_token: self@.access_token(),
                url: self@.url(),
                client_id: client_id@,
                client_secret: client_secret@,
                refresh_token: refresh_token@,
                refresh_in_flight: false,
                history: Seq::<RefreshEvent>::empty(),
            }),
            c@.wf(),
    {
        match self.inner_client {
            InnerClient::Quick(q) => Client {
                inner_client: InnerClient::Refreshable(
                    Refreshable::from_quick_client(q, client_id, client_secret, refresh_token),
                ),
            },
            InnerClient::Refreshable(c) => Client {
                inner_client: InnerClient::Refreshable(c),
            },
        }
    }

    /// Whether this client can refresh its own access token.
    #[must_use]
    pub fn is_refreshable(&self) -> (b: bool)
        ensures
            b == self@ is Refreshable,
    {
        match &self.inner_client {
            InnerClient::Quick(_) => false,
            InnerClient::Refreshable(_) => true,
        }
    }

    /// Return a reference to the current access token.
    #[must_use]
    pub fn access_token(&self) -> (t: &String)
        ensures
            t@ == self@.access_token(),
    {
        match &self.inner_client {
            InnerClient::Quick(q) => q.access_token(),
            InnerClient::Refreshable(c) => c.access_token(),
        }
    }

    /// Manually update the access token.
    pub fn set_access_token(&mut self, access_token: String)
        ensures
            final(self)@ == match old(self)@ {
                ClientView::Quick(q) => ClientView::Quick(
                    QuickView { access_token: access_token@, ..q },
                ),
                ClientView::Refreshable(c) => ClientView::Refreshable(
                    c.with_access_token(access_token@),
                ),
            },
    {
        match &mut self.inner_client {
            InnerClient::Quick(q) => q.set_access_token(access_token),
            InnerClient::Refreshable(c) => c.set_access_token(access_token),
        }
    }

    /// Execute one request: a quick client performs a single executor call
    /// and returns its resolved outcome unchanged; a refreshable client runs
    /// the full execute-refresh-retry exchange of [`execute_with_refresh`].
    pub fn execute(&mut self, endpoint: &Endpoint, transport: &mut ScriptedTransport) -> (r:
        core::result::Result<Vec<u8>, Error>)
        requires
            old(self)@.wf(),
            old(transport)@.responses.len() > 0,
            old(self)@ is Refreshable && spec_resolve(old(transport)@.responses[0]) == Err::<
                Seq<u8>,
                Error,
            >(Error::AuthExpired) ==> old(transport)@.responses.len() >= 2,
            (match old(self)@ {
                ClientView::Refreshable(c0) => spec_resolve(old(transport)@.responses[0]) == Err::<
                    Seq<u8>,
                    Error,
                >(Error::AuthExpired) && !c0.refresh_in_flight
                    ==> old(transport)@.refresh_outcomes.len() > 0,
                ClientView::Quick(_) => true,
            }),
        ensures
            final(self)@.wf(),
            match (old(self)@, final(self)@) {
                (ClientView::Quick(q0), ClientView::Quick(q1)) => {
                    &&& q1 == q0
                    &&& outcome_view(r) == spec_resolve(old(transport)@.responses[0])
                    &&& final(transport)@.responses == old(transport)@.responses.remove(0)
                    &&& final(transport)@.refresh_outcomes == old(transport)@.refresh_outcomes
                    &&& final(transport)@.tokens == old(transport)@.tokens.push(
                        spec_bearer(endpoint.auth_required, q0.access_token),
                    )
                },
                (ClientView::Refreshable(c0), ClientView::Refreshable(c1)) => {
                    spec_execute_with_refresh(
                        c0,
                        old(transport)@,
                        endpoint.auth_required,
                        c1,
                        final(transport)@,
                        r,
                    )
                },
                _ => false,
            },
    {
        match &mut self.inner_client {
            InnerClient::Quick(q) => {
                let token = if endpoint.auth_required {
                    Some(q.access_token())
                } else {
                    None
                };
                let first = transport.execute(endpoint, token);
                resolve(first)
            },
            InnerClient::Refreshable(c) => execute_with_refresh(c, endpoint, transport),
        }
    }

    /// Create a new quick client; identical to [`Client::new`].
    pub fn quick(access_token: String) -> (c: Client)
        ensures
            c@ matches ClientView::Quick(q) && q.access_token == access_token@ && q.url
                == "https://api.monzo.com"@,
            c@.wf(),
    {
        Client::new(access_token)
    }

    /// Builder-style method for setting the access token.
    pub fn with_access_token(self, access_token: String) -> (c: Client)
        ensures
            c@ == match self@ {
                ClientView::Quick(q) => ClientView::Quick(
                    QuickView { access_token: access_token@, ..q },
                ),
                ClientView::Refreshable(r) => ClientView::Refreshable(
                    r.with_access_token(access_token@),
                ),
            },
    {
        let mut c = self;
        c.set_access_token(access_token);
        c
    }

    /// Get a reference to the client id.
    #[must_use]
    pub fn client_id(&self) -> (s: &String)
        requires
            self@ is Refreshable,
        ensures
            self@ matches ClientView::Refreshable(c) && s@ == c.client_id,
    {
        match &self.inner_client {
            InnerClient::Refreshable(c) => c.client_id(),
            InnerClient::Quick(q) => q.access_token(),
        }
    }

    /// Get a reference to the client secret.
    #[must_use]
    pub fn client_secret(&self) -> (s: &String)
        requires
            self@ is Refreshable,
        ensures
            self@ matches ClientView::Refreshable(c) && s@ == c.client_secret,
    {
        match &self.inner_client {
            InnerClient::Refreshable(c) => c.client_secret(),
            InnerClient::Quick(q) => q.access_token(),
        }
    }

    /// Get a reference to the refresh token.
    #[must_use]
    pub fn refresh_token(&self) -> (s: &String)
        requires
            self@ is Refreshable,
        ensures
            self@ matches ClientView::Refreshable(c) && s@ == c.refresh_token,
    {
        match &self.inner_client {
            InnerClient::Refreshable(c) => c.refresh_token(),
            InnerClient::Quick(q) => q.access_token(),
        }
    }

    /// Apply a successful refresh response to this client's credential
    /// record: both tokens are replaced atomically, as a pair. Returns the
    /// time (in seconds) until the new access token expires.
    pub fn refresh_auth(&mut self, response: auth::Response) -> (expires_in: i64)
        requires
            old(self)@.wf(),
            old(self)@ matches ClientView::Refreshable(c) && !c.refresh_in_flight,
        ensures
            expires_in == response.expires_in,
            final(self)@.wf(),
            match (old(self)@, final(self)@) {
                (ClientView::Refreshable(c0), ClientView::Refreshable(c1)) => {
                    &&& c1.access_token == response.access_token@
                    &&& c1.refresh_token == response.refresh_token@
                    &&& !c1.refresh_in_flight
                    &&& c1.url == c0.url
                    &&& c1.client_id == c0.client_id
                    &&& c1.client_secret == c0.client_secret
                },
                _ => false,
            },
    {
        match &mut self.inner_client {
            InnerClient::Refreshable(c) => c.refresh_auth(response),
            InnerClient::Quick(_) => response.expires_in,
        }
    }

    /// A request for the list of the user's accounts.
    #[must_use]
    pub fn accounts(&self) -> accounts::List {
        accounts::List
    }

    /// A request for the balance of the given account.
    #[must_use]
    pub fn balance(&self, account_id: &str) -> (r: balance::Get)
        ensures
            r.account_id@ == account_id@,
    {
        balance::Get::new(account_id)
    }

    /// A request for the pots of the given account.
    #[must_use]
    pub fn pots(&self, account_id: &str) -> (r: pots::List)
        ensures
            r.current_account_id@ == account_id@,
    {
        pots::List::new(account_id)
    }

    /// A request posting a basic item on the account feed.
    #[must_use]
    pub fn basic_feed_item(&self, account_id: &str, title: &str, image_url: &str) -> (r:
        feed_items::Basic)
        ensures
            r.payload.account_id@ == account_id@,
            r.payload.item_type@ == "basic"@,
            r.payload.url is None,
            r.payload.params.title@ == title@,
            r.payload.params.image_url@ == image_url@,
            r.payload.params.background_color is None,
            r.payload.params.body_color is None,
            r.payload.params.title_color is None,
            r.payload.params.body is None,
    {
        feed_items::Basic::new(account_id, title, image_url)
    }

    /// A request depositing money into a pot.
    #[must_use]
    pub fn deposit_into_pot(&self, pot_id: &str, source_account_id: &str, amount: u32) -> (r:
        pots::Deposit)
        ensures
            r.path@ == "/pots/"@ + pot_id@ + "/deposit"@,
            r.source_account_id@ == source_account_id@,
            r.amount == amount,
            r.dedupe_id@.len() == 10,
            forall|i: int| 0 <= i < r.dedupe_id@.len() ==> spec_alphanumeric(r.dedupe_id@[i]),
    {
        pots::Deposit::new(pot_id, source_account_id, amount)
    }

    /// A request withdrawing money from a pot.
    #[must_use]
    pub fn withdraw_from_pot(&self, pot_id: &str, destination_account_id: &str, amount: u32) -> (r:
        pots::Withdraw)
        ensures
            r.path@ == "/pots/"@ + pot_id@ + "/withdraw"@,
            r.destination_account_id@ == destination_account_id@,
            r.amount == amount,
            r.dedupe_id@.len() == 10,
            forall|i: int| 0 <= i < r.dedupe_id@.len() ==> spec_alphanumeric(r.dedupe_id@[i]),
    {
        pots::Withdraw::new(pot_id, destination_account_id, amount)
    }

    /// A request listing the transactions of the given account; use the
    /// builder methods for pagination bounds.
    #[must_use]
    pub fn transactions(&self, account_id: &str) -> (r: transactions::List)
        ensures
            r.account_id@ == account_id@,
            r.pagination.limit is None,
            r.pagination.since is None,
            r.pagination.before is None,
            !r.expand_merchant,
    {
        transactions::List::new(account_id)
    }

    /// A request retrieving a transaction by transaction id.
    #[must_use]
    pub fn transaction(&self, transaction_id: &str) -> (r: transactions::Get)
        ensures
            r.path@ == "/transactions/"@ + transaction_id@,
            !r.expand_merchant,
    {
        transactions::Get::new(transaction_id)
    }

    /// A request for information about the current session.
    #[must_use]
    pub fn who_am_i(&self) -> who_am_i::Request {
        who_am_i::Request
    }
}

} // verus!
