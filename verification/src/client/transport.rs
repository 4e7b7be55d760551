//! A scripted transport: a Request Executor double driven by a fixed script
//! of outcomes.
//!
//! The coordinator is verified against this transport, so every claim about
//! how many executor and refresh calls are made is a claim about how much of
//! the script is consumed. An external event loop performing real HTTP plays
//! the same role by driving [`crate::client::flow::RequestFlow`] itself.

use vstd::prelude::*;

use crate::client::WireResult;
use crate::endpoints::auth;
use crate::endpoints::Endpoint;
use crate::error::Error;

verus! {

/// The spec-level value of a bearer token argument.
pub open spec fn bearer_view(token: Option<&String>) -> Option<Seq<char>> {
    match token {
        Some(t) => Some(t@),
        None => None,
    }
}

/// The abstract state of a [`ScriptedTransport`].
pub struct TransportView {
    /// The executor outcomes not yet consumed, next first.
    pub responses: Seq<WireResult>,
    /// The refresh outcomes not yet consumed, next first.
    pub refresh_outcomes: Seq<core::result::Result<auth::Response, Error>>,
    /// The bearer token of every executor call made so far, oldest first.
    pub tokens: Seq<Option<Seq<char>>>,
}

/// A transport whose responses come from a script.
///
/// Each executor call consumes the front of `responses`; each refresh call
/// consumes the front of `refresh_outcomes`. The ghost `tokens` sequence
/// records the bearer token of every executor call, oldest first.
#[must_use]
pub struct ScriptedTransport {
    responses: Vec<WireResult>,
    refresh_outcomes: Vec<core::result::Result<auth::Response, Error>>,
    tokens: Ghost<Seq<Option<Seq<char>>>>,
}

impl View for ScriptedTransport {
    type V = TransportView;

    closed spec fn view(&self) -> TransportView {
        TransportView {
            responses: self.responses@,
            refresh_outcomes: self.refresh_outcomes@,
            tokens: self.tokens@,
        }
    }
}

impl ScriptedTransport {
    /// A transport that will answer executor calls and refresh calls from
    /// the given scripts, in order.
    pub fn new(
        responses: Vec<WireResult>,
        refresh_outcomes: Vec<core::result::Result<auth::Response, Error>>,
    ) -> (t: ScriptedTransport)
        ensures
            t@.responses == responses@,
            t@.refresh_outcomes == refresh_outcomes@,
            t@.tokens == Seq::<Option<Seq<char>>>::empty(),
    {
        ScriptedTransport { responses, refresh_outcomes, tokens: Ghost(Seq::empty()) }
    }

    /// Perform one executor round trip for the given descriptor and bearer
    /// token: the next scripted outcome is returned and the call is recorded.
    pub fn execute(&mut self, endpoint: &Endpoint, token: Option<&String>) -> (r: WireResult)
        requires
            old(self)@.responses.len() > 0,
        ensures
            r == old(self)@.responses[0],
            final(self)@.responses == old(self)@.responses.remove(0),
            final(self)@.refresh_outcomes == old(self)@.refresh_outcomes,
            final(self)@.tokens == old(self)@.tokens.push(bearer_view(token)),
    {
        let _ = endpoint;
        let r = self.responses.remove(0);
        proof {
            self.tokens@ = self.tokens@.push(bearer_view(token));
        }
        r
    }

    /// Perform one refresh network call: the next scripted refresh outcome
    /// is returned.
    pub fn refresh(&mut self, request: &auth::Request) -> (r: core::result::Result<
        auth::Response,
        Error,
    >)
        requires
            old(self)@.refresh_outcomes.len() > 0,
        ensures
            r == old(self)@.refresh_outcomes[0],
            final(self)@.refresh_outcomes == old(self)@.refresh_outcomes.remove(0),
            final(self)@.responses == old(self)@.responses,
            final(self)@.tokens == old(self)@.tokens,
    {
        let _ = request;
        self.refresh_outcomes.remove(0)
    }

    /// How many scripted executor outcomes are left.
    #[must_use]
    pub fn responses_remaining(&self) -> (n: usize)
        ensures
            n == self@.responses.len(),
    {
        self.responses.len()
    }

    /// How many scripted refresh outcomes are left.
    #[must_use]
    pub fn refreshes_remaining(&self) -> (n: usize)
        ensures
            n == self@.refresh_outcomes.len(),
    {
        self.refresh_outcomes.len()
    }
}

} // verus!
