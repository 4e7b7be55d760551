//! Retrieve and manipulate transactions.

use vstd::prelude::*;

use crate::endpoints::utils::{spec_decimal, u64_to_string};
use crate::endpoints::{pair, Endpoint, Method};

verus! {

/// A Monzo transaction.
#[derive(Debug)]
pub struct Transaction {
    /// The unique ID of the account associated with the transaction.
    pub account_id: String,

    /// The amount of the transaction, in the smallest unit of currency (ie.
    /// 'pence' or 'cents').
    pub amount: i64,

    /// Whether the transaction is pending, or complete.
    pub amount_is_pending: bool,

    /// Whether the transaction can be added to a tab.
    pub can_add_to_tab: bool,

    /// Whether the transaction can be excluded from breakdown.
    pub can_be_excluded_from_breakdown: bool,

    /// Whether the transaction can be made into a recurring subscription.
    pub can_be_made_subscription: bool,

    /// Whether the transaction can be split.
    pub can_split_the_bill: bool,

    /// The transaction category.
    pub category: String,

    /// The timestamp when the transaction was created.
    pub created: String,

    /// The three-letter currency string for the transaction.
    pub currency: String,

    /// The transaction description.
    pub description: String,

    /// The unique transaction ID.
    pub id: String,

    /// Whether the transaction is included in spending.
    pub include_in_spending: bool,

    /// This can be either None, the merchant ID, or an object containing
    /// the merchant details.
    pub merchant: Option<MerchantInfo>,

    /// Any custom metadata which has been added to the transaction, as
    /// key-value pairs.
    pub metadata: Vec<(String, String)>,

    /// User-added transaction notes.
    pub notes: String,

    /// If the transaction was declined, this enum will encode the reason.
    pub decline_reason: Option<DeclineReason>,

    /// Top-ups to an account are represented as transactions with a
    /// positive amount and is_load = true. Other transactions such as
    /// refunds, reversals or chargebacks may have a positive amount but
    /// is_load = false.
    pub is_load: bool,

    /// The timestamp at which the transaction was settled.
    ///
    /// This is `None` if the transaction is authorised, but not yet
    /// complete.
    pub settled: Option<String>,
}

/// The set of reasons for which a Monzo transaction may be declined.
#[derive(Clone, Copy, Debug, PartialEq, Eq, Structural)]
#[non_exhaustive]
pub enum DeclineReason {
    /// Not enough funds in account to complete transaction.
    InsufficientFunds,

    /// Monzo card is not active.
    CardInactive,

    /// The Monzo card has been blocked.
    CardBlocked,

    /// Incorrect CVC code used.
    InvalidCvc,

    /// Strong Customer Authentication blocking 'not present' transaction.
    ScaNotAuthenticatedCardNotPresent,

    /// Requires SCA.
    StrongCustomerAuthenticationRequired,

    /// All other errors.
    Other,
}

/// Merchant information which might be returned in transactions data.
///
/// An id or a struct may be returned depending on whether the 'expand
/// merchant' flag is set in the transactions request.
#[derive(Debug)]
pub enum MerchantInfo {
    /// A unique ID associated with a merchant.
    Id(String),

    /// Extra merchant information which may optionally be requested.
    Details(Box<Merchant>),
}

/// Merchant details.
#[derive(Debug)]
pub struct Merchant {
    /// Where the merchant is.
    pub address: Address,
    /// The timestamp the merchant record was created.
    pub created: String,
    /// The merchant group id.
    pub group_id: String,
    /// The merchant id.
    pub id: String,
    /// A logo URL.
    pub logo: String,
    /// The emoji shown for the merchant.
    pub emoji: String,
    /// The merchant name.
    pub name: String,
    /// The merchant category.
    pub category: String,
}

/// Address details.
///
/// Coordinates are carried in microdegrees: the latitude or longitude in
/// degrees, scaled by one million and rounded.
#[derive(Debug)]
pub struct Address {
    /// The street address.
    pub address: String,
    /// The city.
    pub city: String,
    /// The country.
    pub country: String,
    /// Latitude in microdegrees.
    pub latitude: i64,
    /// Longitude in microdegrees.
    pub longitude: i64,
    /// The postcode.
    pub postcode: String,
    /// The region.
    pub region: String,
}

/// The 'since' parameter of a pagination request can be either a timestamp
/// or an object id.
#[derive(Debug)]
pub enum Since {
    /// An RFC 3339 timestamp.
    Timestamp(String),

    /// An id of an object.
    ObjectId(String),
}

/// Optional pagination bounds on a transactions listing.
#[derive(Debug)]
pub struct Pagination {
    /// The maximum number of transactions returned.
    pub limit: Option<u16>,
    /// Only transactions after this point.
    pub since: Option<Since>,
    /// Only transactions before this timestamp (RFC 3339).
    pub before: Option<String>,
}

/// The query value a 'since' bound contributes.
pub open spec fn spec_since_value(s: Since) -> Seq<char> {
    match s {
        Since::Timestamp(t) => t@,
        Since::ObjectId(id) => id@,
    }
}

/// The query pairs a pagination contributes, in order: limit, since, before.
pub open spec fn spec_pagination_pairs(p: Pagination) -> Seq<(Seq<char>, Seq<char>)> {
    (match p.limit {
        Some(l) => seq![("limit"@, spec_decimal(l as nat))],
        None => Seq::empty(),
    }) + (match p.since {
        Some(s) => seq![("since"@, spec_since_value(s))],
        None => Seq::empty(),
    }) + (match p.before {
        Some(b) => seq![("before"@, b@)],
        None => Seq::empty(),
    })
}

/// A request to retrieve a list of transactions from the Monzo API.
///
/// Use the builder-style methods to set optional fields on the request.
#[derive(Debug)]
#[must_use]
pub struct List {
    /// The account whose transactions are listed.
    pub account_id: String,
    /// Optional pagination bounds.
    pub pagination: Pagination,
    /// Whether to expand the merchant field from an id into a struct.
    pub expand_merchant: bool,
}

impl List {
    /// A listing request for the given account, with no bounds set.
    pub fn new(account_id: &str) -> (r: List)
        ensures
            r.account_id@ == account_id@,
            r.pagination.limit is None,
            r.pagination.since is None,
            r.pagination.before is None,
            !r.expand_merchant,
    {
        List {
            account_id: String::from_str(account_id),
            pagination: Pagination { limit: None, since: None, before: None },
            expand_merchant: false,
        }
    }

    /// Only return transactions which occurred after the given timestamp.
    pub fn since(self, timestamp: String) -> (r: List)
        ensures
            r.account_id@ == self.account_id@,
            r.pagination.limit == self.pagination.limit,
            r.pagination.since matches Some(s) && spec_since_value(s) == timestamp@ && s is
                Timestamp,
            r.pagination.before == self.pagination.before,
            r.expand_merchant == self.expand_merchant,
    {
        List {
            pagination: Pagination {
                since: Some(Since::Timestamp(timestamp)),
                ..self.pagination
            },
            ..self
        }
    }

    /// Only return transactions which occurred after the given transaction.
    ///
    /// This can be used for paginating.
    pub fn since_transaction(self, transaction_id: String) -> (r: List)
        ensures
            r.account_id@ == self.account_id@,
            r.pagination.limit == self.pagination.limit,
            r.pagination.since matches Some(s) && spec_since_value(s) == transaction_id@ && s is
                ObjectId,
            r.pagination.before == self.pagination.before,
            r.expand_merchant == self.expand_merchant,
    {
        List {
            pagination: Pagination {
                since: Some(Since::ObjectId(transaction_id)),
                ..self.pagination
            },
            ..self
        }
    }

    /// Only return transactions which occurred before the given timestamp.
    pub fn before(self, timestamp: String) -> (r: List)
        ensures
            r.account_id@ == self.account_id@,
            r.pagination.limit == self.pagination.limit,
            r.pagination.since == self.pagination.since,
            r.pagination.before matches Some(b) && b@ == timestamp@,
            r.expand_merchant == self.expand_merchant,
    {
        List { pagination: Pagination { before: Some(timestamp), ..self.pagination }, ..self }
    }

    /// Set the maximum number of transactions to be returned.
    pub fn limit(self, limit: u16) -> (r: List)
        ensures
            r.account_id@ == self.account_id@,
            r.pagination.limit == Some(limit),
            r.pagination.since == self.pagination.since,
            r.pagination.before == self.pagination.before,
            r.expand_merchant == self.expand_merchant,
    {
        List { pagination: Pagination { limit: Some(limit), ..self.pagination }, ..self }
    }

    /// Optionally expand the merchant field from an id string into a struct
    /// containing merchant details.
    pub fn expand_merchant(self) -> (r: List)
        ensures
            r.account_id@ == self.account_id@,
            r.pagination.limit == self.pagination.limit,
            r.pagination.since == self.pagination.since,
            r.pagination.before == self.pagination.before,
            r.expand_merchant,
    {
        List { expand_merchant: true, ..self }
    }

    /// The descriptor of the call: an authenticated `GET` of `/transactions`
    /// whose query names the account, then any pagination bounds, then the
    /// merchant expansion.
    pub fn to_endpoint(&self) -> (e: Endpoint)
        ensures
            e.method == Method::Get,
            e.path@ == "/transactions"@,
            e.auth_required,
            e.form@.len() == 0,
            e.json@.len() == 0,
            e.query.deep_view() == seq![("account_id"@, self.account_id@)]
                + spec_pagination_pairs(self.pagination) + (if self.expand_merchant {
                seq![("expand[]"@, "merchant"@)]
            } else {
                Seq::empty()
            }),
    {
        let mut e = Endpoint::new(Method::Get, String::from_str("/transactions"));
        e.query.push(pair("account_id", self.account_id.as_str()));
        if let Some(l) = &self.pagination.limit {
            let rendered = u64_to_string(*l as u64);
            e.query.push(pair("limit", rendered.as_str()));
        }
        match &self.pagination.since {
            Some(Since::Timestamp(t)) => e.query.push(pair("since", t.as_str())),
            Some(Since::ObjectId(id)) => e.query.push(pair("since", id.as_str())),
            None => (),
        }
        if let Some(b) = &self.pagination.before {
            e.query.push(pair("before", b.as_str()));
        }
        if self.expand_merchant {
            e.query.push(pair("expand[]", "merchant"));
        }
        proof {
            assert(e.query.deep_view() =~= seq![("account_id"@, self.account_id@)]
                + spec_pagination_pairs(self.pagination) + (if self.expand_merchant {
                seq![("expand[]"@, "merchant"@)]
            } else {
                Seq::empty()
            }));
        }
        e
    }
}

/// A request to retrieve a single transaction from the Monzo API.
///
/// Use the builder-style methods to set optional fields on the request.
#[derive(Debug)]
#[must_use]
pub struct Get {
    /// The path of the call, naming the transaction.
    pub path: String,
    /// Whether to expand the merchant field from an id into a struct.
    pub expand_merchant: bool,
}

impl Get {
    /// A retrieval request for the given transaction.
    pub fn new(transaction_id: &str) -> (r: Get)
        ensures
            r.path@ == "/transactions/"@ + transaction_id@,
            !r.expand_merchant,
    {
        let mut path = String::from_str("/transactions/");
        path.append(transaction_id);
        Get { path, expand_merchant: false }
    }

    /// Optionally expand the merchant field from an id string into a struct
    /// containing merchant details.
    pub fn expand_merchant(self) -> (r: Get)
        ensures
            r.path@ == self.path@,
            r.expand_merchant,
    {
        Get { expand_merchant: true, ..self }
    }

    /// The descriptor of the call: an authenticated `GET` of the
    /// transaction's path, expanding the merchant if asked to.
    pub fn to_endpoint(&self) -> (e: Endpoint)
        ensures
            e.method == Method::Get,
            e.path@ == self.path@,
            e.auth_required,
            e.form@.len() == 0,
            e.json@.len() == 0,
            e.query.deep_view() == if self.expand_merchant {
                seq![("expand[]"@, "merchant"@)]
            } else {
                Seq::<(Seq<char>, Seq<char>)>::empty()
            },
    {
        let mut e = Endpoint::new(Method::Get, self.path.clone());
        if self.expand_merchant {
            e.query.push(pair("expand[]", "merchant"));
        }
        proof {
            assert(e.query.deep_view() =~= if self.expand_merchant {
                seq![("expand[]"@, "merchant"@)]
            } else {
                Seq::<(Seq<char>, Seq<char>)>::empty()
            });
        }
        e
    }
}

} // verus!
