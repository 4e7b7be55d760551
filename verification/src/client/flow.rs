//! The per-request retry flow: execute, detect auth failure, refresh, retry
//! exactly once.
//!
//! [`RequestFlow`] is the decision core of the Authenticated Request
//! Coordinator, written as a state machine so that a driver — the scripted
//! driver in this crate, or an external event loop — performs the calls and
//! hands the outcomes back. The retry budget of exactly one is built into the
//! states: after the single retry the flow is done, whatever the outcome.

use vstd::prelude::*;

use crate::client::{outcome_view, spec_resolve, resolve, WireResult};
use crate::error::Error;

verus! {

/// The states of one authenticated request.
#[derive(Clone, Copy, Debug, PartialEq, Eq, Structural)]
pub enum FlowState {
    /// No executor call issued yet.
    Idle,
    /// The first executor call is in flight.
    Sent,
    /// The first call came back 401 and a refresh is in progress.
    Refreshing,
    /// The single retry is in flight.
    Retried,
    /// The flow has produced its final outcome.
    Done,
}

/// What the coordinator decides after the first executor call.
#[derive(Debug)]
pub enum FirstDecision {
    /// The outcome is terminal and returned unchanged: any success, any
    /// non-auth error, or an auth failure on a client that cannot refresh.
    Terminal(Result<Vec<u8>, Error>),
    /// The token may have expired: refresh, then retry exactly once.
    RefreshAndRetry,
}

/// The decision core of one authenticated request.
#[must_use]
pub struct RequestFlow {
    refreshable: bool,
    state: FlowState,
}

impl RequestFlow {
    /// Which state the flow is in.
    pub closed spec fn spec_state(&self) -> FlowState {
        self.state
    }

    /// Whether the client this flow serves can refresh its token.
    pub closed spec fn spec_refreshable(&self) -> bool {
        self.refreshable
    }

    /// Which state the flow is in.
    #[must_use]
    pub fn state(&self) -> (s: FlowState)
        ensures
            s == self.spec_state(),
    {
        self.state
    }

    /// A fresh flow for one request; `refreshable` says whether the client
    /// has refresh credentials.
    pub fn new(refreshable: bool) -> (f: RequestFlow)
        ensures
            f.spec_state() is Idle,
            f.spec_refreshable() == refreshable,
    {
        RequestFlow { refreshable, state: FlowState::Idle }
    }

    /// Issue the first executor call with the client's current access token.
    pub fn start(&mut self)
        requires
            old(self).spec_state() is Idle,
        ensures
            final(self).spec_state() is Sent,
            final(self).spec_refreshable() == old(self).spec_refreshable(),
    {
        self.state = FlowState::Sent;
    }

    /// Classify the first executor outcome. Anything other than an auth
    /// failure is terminal; an auth failure triggers the refresh path if and
    /// only if the client can refresh.
    pub fn on_first_result(&mut self, result: WireResult) -> (d: FirstDecision)
        requires
            old(self).spec_state() is Sent,
        ensures
            final(self).spec_refreshable() == old(self).spec_refreshable(),
            if old(self).spec_refreshable() && spec_resolve(result) == Err::<Seq<u8>, Error>(
                Error::AuthExpired,
            ) {
                final(self).spec_state() is Refreshing && d is RefreshAndRetry
            } else {
                &&& final(self).spec_state() is Done
                &&& d matches FirstDecision::Terminal(r)
                &&& outcome_view(r) == spec_resolve(result)
            },
    {
        let outcome = resolve(result);
        let auth_expired = match &outcome {
            Err(Error::AuthExpired) => true,
            _ => false,
        };
        if self.refreshable && auth_expired {
            self.state = FlowState::Refreshing;
            FirstDecision::RefreshAndRetry
        } else {
            self.state = FlowState::Done;
            FirstDecision::Terminal(outcome)
        }
    }

    /// The refresh step is over — whether it made the refresh call itself,
    /// deferred to a concurrent one, or saw it fail. The flow then
    /// re-reads the access token and retries the request exactly once,
    /// unconditionally.
    pub fn on_refresh_complete(&mut self)
        requires
            old(self).spec_state() is Refreshing,
        ensures
            final(self).spec_state() is Retried,
            final(self).spec_refreshable() == old(self).spec_refreshable(),
    {
        self.state = FlowState::Retried;
    }

    /// Resolve the retry's outcome and return it unchanged: a second
    /// consecutive auth failure is surfaced to the caller, never retried
    /// again.
    pub fn on_retry_result(&mut self, result: WireResult) -> (r: Result<Vec<u8>, Error>)
        requires
            old(self).spec_state() is Retried,
        ensures
            final(self).spec_state() is Done,
            final(self).spec_refreshable() == old(self).spec_refreshable(),
            outcome_view(r) == spec_resolve(result),
    {
        self.state = FlowState::Done;
        resolve(result)
    }
}

} // verus!
