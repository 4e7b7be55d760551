//! A trace-level model of the token-refresh protocol.
//!
//! Every Refresh Gate operation of a refreshable client is recorded as a
//! [`RefreshEvent`] in a ghost history. The spec functions here say which
//! histories the protocol allows, and the proof functions state the laws of
//! the protocol: concurrent refresh attempts are deduplicated while one of
//! them holds the Refresh Gate, and the stored token pair always comes from
//! a single refresh response.

use vstd::prelude::*;

verus! {

/// One observable event of the refresh protocol, in the order the events
/// happen on the shared client.
pub enum RefreshEvent {
    /// A task tried to acquire the Refresh Gate while another task held it:
    /// it defers to the concurrent refresh and performs no call of its own.
    Deferred,
    /// A task acquired the Refresh Gate; exactly one refresh network call
    /// follows before the matching `Committed` or `Aborted` event.
    Acquired,
    /// The holder's refresh call succeeded: both tokens were replaced, as a
    /// pair, from one refresh response, and it let go of the Refresh Gate.
    Committed { access: Seq<char>, refresh: Seq<char> },
    /// The holder's refresh call failed: the tokens were left unchanged and
    /// it let go of the Refresh Gate.
    Aborted,
}

/// Whether the Refresh Gate is held after the events of `t`.
pub open spec fn gate_held_after(t: Seq<RefreshEvent>) -> bool
    decreases t.len(),
{
    if t.len() == 0 {
        false
    } else {
        match t.last() {
            RefreshEvent::Deferred => gate_held_after(t.drop_last()),
            RefreshEvent::Acquired => true,
            RefreshEvent::Committed { .. } => false,
            RefreshEvent::Aborted => false,
        }
    }
}

/// Which histories the Refresh Gate admits: deferring only happens while
/// some task holds it, acquiring only while no task does, and only the
/// holder completes.
pub open spec fn valid_history(t: Seq<RefreshEvent>) -> bool
    decreases t.len(),
{
    if t.len() == 0 {
        true
    } else {
        valid_history(t.drop_last()) && match t.last() {
            RefreshEvent::Deferred => gate_held_after(t.drop_last()),
            RefreshEvent::Acquired => !gate_held_after(t.drop_last()),
            RefreshEvent::Committed { .. } => gate_held_after(t.drop_last()),
            RefreshEvent::Aborted => gate_held_after(t.drop_last()),
        }
    }
}

/// How many refresh network calls the history records: one each time a
/// task takes the Refresh Gate.
pub open spec fn refresh_call_count(t: Seq<RefreshEvent>) -> nat
    decreases t.len(),
{
    if t.len() == 0 {
        0
    } else {
        refresh_call_count(t.drop_last()) + match t.last() {
            RefreshEvent::Acquired => 1nat,
            _ => 0nat,
        }
    }
}

/// How many refresh attempts have finished, whether they succeeded or
/// failed: each one hands the Refresh Gate back.
pub open spec fn release_count(t: Seq<RefreshEvent>) -> nat
    decreases t.len(),
{
    if t.len() == 0 {
        0
    } else {
        release_count(t.drop_last()) + match t.last() {
            RefreshEvent::Committed { .. } => 1nat,
            RefreshEvent::Aborted => 1nat,
            _ => 0nat,
        }
    }
}

/// The pair of tokens stored in Credential State after the events of `t`,
/// starting from the pair `(access0, refresh0)`: only a `Committed` event
/// replaces it, and it replaces both halves at once.
pub open spec fn tokens_after(
    t: Seq<RefreshEvent>,
    access0: Seq<char>,
    refresh0: Seq<char>,
) -> (Seq<char>, Seq<char>)
    decreases t.len(),
{
    if t.len() == 0 {
        (access0, refresh0)
    } else {
        match t.last() {
            RefreshEvent::Committed { access, refresh } => (access, refresh),
            _ => tokens_after(t.drop_last(), access0, refresh0),
        }
    }
}

/// In a valid history every refresh call is matched by an earlier finished
/// attempt, except for the one the current holder (if any) is still making:
/// the Refresh Gate admits at most one refresh call per holding span.
pub proof fn lemma_refresh_calls_match_releases(t: Seq<RefreshEvent>)
    requires
        valid_history(t),
    ensures
        refresh_call_count(t) == release_count(t) + if gate_held_after(t) {
            1nat
        } else {
            0nat
        },
    decreases t.len(),
{
    if t.len() > 0 {
        lemma_refresh_calls_match_releases(t.drop_last());
    }
}

/// Refresh deduplication: however many concurrent tasks hit an expired
/// token, as long as no refresh attempt has finished — the Refresh Gate
/// never changed hands — at most one refresh network call has been made.
/// All the other tasks deferred.
pub proof fn lemma_refresh_deduplicated(t: Seq<RefreshEvent>)
    requires
        valid_history(t),
        release_count(t) == 0,
    ensures
        refresh_call_count(t) <= 1,
{
    lemma_refresh_calls_match_releases(t);
}

/// Token-pair atomicity: after any valid history, the stored access token and
/// refresh token either are still the initial pair, or both come from one and
/// the same refresh response. No reader ever observes an access token from
/// one response paired with a refresh token from another.
pub proof fn lemma_tokens_never_torn(
    t: Seq<RefreshEvent>,
    access0: Seq<char>,
    refresh0: Seq<char>,
)
    ensures
        tokens_after(t, access0, refresh0) == (access0, refresh0) || exists|i: int|
            {
                &&& 0 <= i < t.len()
                &&& #[trigger] t[i] matches RefreshEvent::Committed { access, refresh }
                &&& tokens_after(t, access0, refresh0) == (access, refresh)
            },
    decreases t.len(),
{
    if t.len() > 0 {
        if t.last() matches RefreshEvent::Committed { access, refresh } {
            assert(t[t.len() - 1] matches RefreshEvent::Committed { .. });
        } else {
            lemma_tokens_never_torn(t.drop_last(), access0, refresh0);
            if tokens_after(t.drop_last(), access0, refresh0) != (access0, refresh0) {
                let i = choose|i: int|
                    {
                        &&& 0 <= i < t.drop_last().len()
                        &&& #[trigger] t.drop_last()[i] matches RefreshEvent::Committed {
                            access,
                            refresh,
                        }
                        &&& tokens_after(t.drop_last(), access0, refresh0) == (access, refresh)
                    };
                assert(t[i] == t.drop_last()[i]);
            }
        }
    }
}

} // verus!
