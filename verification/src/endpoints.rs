//! Endpoint descriptors: inert values describing one API call each.
//!
//! Constructing a descriptor performs no I/O; two descriptors with identical
//! fields are behaviourally identical. The transport reads the fields and
//! performs the call.

use vstd::prelude::*;

pub mod accounts;
pub mod auth;
pub mod balance;
pub mod feed_items;
pub mod pots;
pub mod transactions;
pub mod utils;
pub mod who_am_i;

verus! {

/// The HTTP method of an API call.
#[derive(Clone, Copy, Debug, PartialEq, Eq, Structural)]
pub enum Method {
    Get,
    Post,
    Put,
}

/// A declarative description of one API call: method, path, whether bearer
/// authentication is required, and the query, form and JSON payloads as flat
/// key-value pairs.
#[derive(Debug)]
#[must_use]
pub struct Endpoint {
    /// The HTTP method of the call.
    pub method: Method,
    /// The path of the call, relative to the API base URL.
    pub path: String,
    /// Whether the call carries the bearer token; on by default.
    pub auth_required: bool,
    /// Query parameters, in order.
    pub query: Vec<(String, String)>,
    /// Form fields, in order; sent URL-encoded in the body.
    pub form: Vec<(String, String)>,
    /// JSON body fields, in order.
    pub json: Vec<(String, String)>,
}

impl Endpoint {
    /// A descriptor with the given method and path, requiring authentication
    /// and carrying no parameters.
    pub fn new(method: Method, path: String) -> (e: Endpoint)
        ensures
            e.method == method,
            e.path@ == path@,
            e.auth_required,
            e.query@.len() == 0,
            e.form@.len() == 0,
            e.json@.len() == 0,
    {
        Endpoint {
            method,
            path,
            auth_required: true,
            query: Vec::new(),
            form: Vec::new(),
            json: Vec::new(),
        }
    }
}

/// An owned key-value pair from two string slices.
pub fn pair(key: &str, value: &str) -> (p: (String, String))
    ensures
        p.0@ == key@,
        p.1@ == value@,
{
    (String::from_str(key), String::from_str(value))
}

} // verus!
