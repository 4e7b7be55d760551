//! A typed client library for the Monzo banking HTTP API.
//!
//! The heart of the crate is the authenticated-request execution and
//! token-refresh coordination layer: issuing authenticated calls, detecting
//! authentication failure, refreshing the access token at most once per
//! request, and serialising concurrent refresh attempts behind the Refresh Gate.
//!
//! All network transport is left to the caller: the library describes each
//! call as an inert [`endpoints::Endpoint`] value, classifies raw responses,
//! and drives the retry/refresh decisions through a verified state machine.

use vstd::prelude::*;

pub mod client;
pub mod endpoints;
pub mod error;

pub use client::inner as inner_client;
pub use client::Client;
pub use endpoints::accounts;
pub use endpoints::accounts::{Account, Owner};
pub use endpoints::balance::Balance;
pub use endpoints::feed_items;
pub use endpoints::pots::Pot;
pub use endpoints::transactions;
pub use endpoints::transactions::Transaction;
pub use endpoints::who_am_i::Response as WhoAmI;
pub use error::Error;

verus! {

/// Result type for all methods in this crate which can fail.
pub type Result<T> = core::result::Result<T, Error>;

} // verus!
