//! Account balance.

use vstd::prelude::*;

use crate::endpoints::{pair, Endpoint, Method};

verus! {

/// The balance of a Monzo Account.
#[derive(Debug)]
#[must_use]
pub struct Balance {
    /// The account balance, in the minor units of the listed currency. ie
    /// for GBP, the balance is in pence.
    pub balance: i64,

    /// The total account balance.
    pub total_balance: i64,

    /// Three-letter currency code for the account.
    pub currency: String,

    /// Total expenditure so far this calendar day.
    pub spend_today: i64,
}

/// A request for the balance of an account.
#[must_use]
pub struct Get {
    /// The account whose balance is requested.
    pub account_id: String,
}

impl Get {
    /// A balance request for the given account.
    pub fn new(account_id: &str) -> (r: Get)
        ensures
            r.account_id@ == account_id@,
    {
        Get { account_id: String::from_str(account_id) }
    }

    /// The descriptor of the call: an authenticated `GET` of `/balance`
    /// with the account id as its one query parameter.
    pub fn to_endpoint(&self) -> (e: Endpoint)
        ensures
            e.method == Method::Get,
            e.path@ == "/balance"@,
            e.auth_required,
            e.form@.len() == 0,
            e.json@.len() == 0,
            e.query@.len() == 1,
            e.query@[0].0@ == "account_id"@,
            e.query@[0].1@ == self.account_id@,
    {
        let mut e = Endpoint::new(Method::Get, String::from_str("/balance"));
        e.query.push(pair("account_id", self.account_id.as_str()));
        e
    }
}

} // verus!
