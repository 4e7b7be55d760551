//! Endpoints for working with Monzo pots.

use vstd::prelude::*;

use crate::endpoints::utils::{dedupe_id, spec_alphanumeric, spec_decimal, u64_to_string};
use crate::endpoints::{pair, Endpoint, Method};

verus! {

/// Representation of a Monzo pot.
#[derive(Debug)]
pub struct Pot {
    /// Unique ID for this Monzo pot.
    pub id: String,

    /// The human-readable name for this pot.
    pub name: String,

    /// A reference to the built in Monzo image for this pot, if any.
    pub style: Option<String>,

    /// The pot balance, in the minor units of the specified currency.
    pub balance: i64,

    /// Three letter code for the pot's currency.
    pub currency: String,

    /// The goal balance for this pot, if set.
    pub goal_amount: Option<i64>,

    /// The unique ID of the account associated with this pot.
    pub current_account_id: String,

    /// The timestamp that the pot was created.
    pub created: String,

    /// The timestamp that the pot was last modified.
    pub updated: String,

    /// True if the pot has been deleted.
    pub deleted: bool,
}

/// A request for the list of pots belonging to an account.
#[must_use]
pub struct List {
    /// The account whose pots are listed.
    pub current_account_id: String,
}

impl List {
    /// A request for the pots of the given account.
    pub fn new(current_account_id: &str) -> (r: List)
        ensures
            r.current_account_id@ == current_account_id@,
    {
        List { current_account_id: String::from_str(current_account_id) }
    }

    /// The descriptor of the call: an authenticated `GET` of `/pots` with
    /// the account id as its one query parameter.
    pub fn to_endpoint(&self) -> (e: Endpoint)
        ensures
            e.method == Method::Get,
            e.path@ == "/pots"@,
            e.auth_required,
            e.form@.len() == 0,
            e.json@.len() == 0,
            e.query@.len() == 1,
            e.query@[0].0@ == "current_account_id"@,
            e.query@[0].1@ == self.current_account_id@,
    {
        let mut e = Endpoint::new(Method::Get, String::from_str("/pots"));
        e.query.push(pair("current_account_id", self.current_account_id.as_str()));
        e
    }
}

/// A request to deposit money into a pot.
#[must_use]
pub struct Deposit {
    /// The path of the call, naming the pot.
    pub path: String,
    /// The account the money is taken from.
    pub source_account_id: String,
    /// The amount to move, in the minor units of the currency.
    pub amount: u32,
    /// A random id that lets the API drop accidental duplicates of this
    /// transfer.
    pub dedupe_id: String,
}

impl Deposit {
    /// A request moving `amount` from the given account into the given pot,
    /// with a fresh deduplication id.
    pub fn new(pot_id: &str, source_account_id: &str, amount: u32) -> (r: Deposit)
        ensures
            r.path@ == "/pots/"@ + pot_id@ + "/deposit"@,
            r.source_account_id@ == source_account_id@,
            r.amount == amount,
            r.dedupe_id@.len() == 10,
            forall|i: int| 0 <= i < r.dedupe_id@.len() ==> spec_alphanumeric(r.dedupe_id@[i]),
    {
        let mut path = String::from_str("/pots/");
        path.append(pot_id);
        path.append("/deposit");
        Deposit {
            path,
            source_account_id: String::from_str(source_account_id),
            amount,
            dedupe_id: dedupe_id(),
        }
    }

    /// The descriptor of the call: an authenticated `PUT` whose form names
    /// the source account, the amount in decimal, and the deduplication id.
    pub fn to_endpoint(&self) -> (e: Endpoint)
        ensures
            e.method == Method::Put,
            e.path@ == self.path@,
            e.auth_required,
            e.query@.len() == 0,
            e.json@.len() == 0,
            e.form@.len() == 3,
            e.form@[0].0@ == "source_account_id"@,
            e.form@[0].1@ == self.source_account_id@,
            e.form@[1].0@ == "amount"@,
            e.form@[1].1@ == spec_decimal(self.amount as nat),
            e.form@[2].0@ == "dedupe_id"@,
            e.form@[2].1@ == self.dedupe_id@,
    {
        let mut e = Endpoint::new(Method::Put, self.path.clone());
        e.form.push(pair("source_account_id", self.source_account_id.as_str()));
        let amount = u64_to_string(self.amount as u64);
        e.form.push(pair("amount", amount.as_str()));
        e.form.push(pair("dedupe_id", self.dedupe_id.as_str()));
        e
    }
}

/// A request to withdraw money from a pot.
#[must_use]
pub struct Withdraw {
    /// The path of the call, naming the pot.
    pub path: String,
    /// The account the money is moved to.
    pub destination_account_id: String,
    /// The amount to move, in the minor units of the currency.
    pub amount: u32,
    /// A random id that lets the API drop accidental duplicates of this
    /// transfer.
    pub dedupe_id: String,
}

impl Withdraw {
    /// A request moving `amount` out of the given pot into the given
    /// account, with a fresh deduplication id.
    pub fn new(pot_id: &str, destination_account_id: &str, amount: u32) -> (r: Withdraw)
        ensures
            r.path@ == "/pots/"@ + pot_id@ + "/withdraw"@,
            r.destination_account_id@ == destination_account_id@,
            r.amount == amount,
            r.dedupe_id@.len() == 10,
            forall|i: int| 0 <= i < r.dedupe_id@.len() ==> spec_alphanumeric(r.dedupe_id@[i]),
    {
        let mut path = String::from_str("/pots/");
        path.append(pot_id);
        path.append("/withdraw");
        Withdraw {
            path,
            destination_account_id: String::from_str(destination_account_id),
            amount,
            dedupe_id: dedupe_id(),
        }
    }

    /// The descriptor of the call: an authenticated `PUT` whose form names
    /// the destination account, the amount in decimal, and the
    /// deduplication id.
    pub fn to_endpoint(&self) -> (e: Endpoint)
        ensures
            e.method == Method::Put,
            e.path@ == self.path@,
            e.auth_required,
            e.query@.len() == 0,
            e.json@.len() == 0,
            e.form@.len() == 3,
            e.form@[0].0@ == "destination_account_id"@,
            e.form@[0].1@ == self.destination_account_id@,
            e.form@[1].0@ == "amount"@,
            e.form@[1].1@ == spec_decimal(self.amount as nat),
            e.form@[2].0@ == "dedupe_id"@,
            e.form@[2].1@ == self.dedupe_id@,
    {
        let mut e = Endpoint::new(Method::Put, self.path.clone());
        e.form.push(pair("destination_account_id", self.destination_account_id.as_str()));
        let amount = u64_to_string(self.amount as u64);
        e.form.push(pair("amount", amount.as_str()));
        e.form.push(pair("dedupe_id", self.dedupe_id.as_str()));
        e
    }
}

} // verus!
