//! Accounts API endpoint.

use vstd::prelude::*;

use crate::endpoints::{Endpoint, Method};

verus! {

/// A struct representing a Monzo Account.
#[derive(Debug)]
pub struct Account {
    /// The unique ID of the account.
    pub id: String,

    /// Whether the account has been closed.
    pub closed: bool,

    /// The timestamp that the account was created.
    pub created: String,

    /// The account description.
    pub description: String,

    /// The type of the account.
    pub account_type: Type,

    /// This is a three-letter currency code.
    pub currency: String,

    /// This is a country code for the country where the account is held.
    pub country_code: String,

    /// A vector of account owners.
    pub owners: Vec<Owner>,

    /// The business ID.
    ///
    /// This is only set for business accounts.
    pub business_id: Option<String>,

    /// The account number.
    pub account_number: String,

    /// The sort code.
    pub sort_code: String,
}

/// Struct representing an owner of a Monzo account.
#[derive(Debug)]
pub struct Owner {
    /// The user ID of the owner.
    pub user_id: String,

    /// The preferred name of the owner.
    pub preferred_name: String,

    /// The preferred first name of the owner.
    pub preferred_first_name: String,
}

/// Types of Monzo account.
#[derive(Clone, Copy, Debug, PartialEq, Eq, Structural)]
#[non_exhaustive]
pub enum Type {
    /// A standard Monzo account.
    UkRetail,

    /// A Monzo joint account.
    UkRetailJoint,

    /// A Monzo business account.
    UkBusiness,
}

/// A request for the list of the user's accounts.
#[derive(Debug)]
#[must_use]
pub struct List;

impl List {
    /// The descriptor of the call: an authenticated `GET` of `/accounts`
    /// with no parameters.
    pub fn to_endpoint(&self) -> (e: Endpoint)
        ensures
            e.method == Method::Get,
            e.path@ == "/accounts"@,
            e.auth_required,
            e.query@.len() == 0,
            e.form@.len() == 0,
            e.json@.len() == 0,
    {
        Endpoint::new(Method::Get, String::from_str("/accounts"))
    }
}

} // verus!
