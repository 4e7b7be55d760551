//! Create items in your account feed.

use vstd::prelude::*;

use crate::endpoints::{pair, Endpoint, Method};

verus! {

/// The optional-field part of a basic feed item payload: a pair the field
/// contributes when set, nothing when unset.
pub open spec fn spec_opt_pair(key: Seq<char>, value: Option<String>) -> Seq<
    (Seq<char>, Seq<char>),
> {
    match value {
        Some(s) => seq![(key, s@)],
        None => Seq::empty(),
    }
}

/// The parameters of a basic feed item.
#[derive(Debug)]
pub struct Params {
    /// The title of the feed item.
    pub title: String,

    /// The image shown on the feed item.
    pub image_url: String,

    /// The background colour of the feed item, if set.
    pub background_color: Option<String>,

    /// The body colour of the feed item, if set.
    pub body_color: Option<String>,

    /// The title colour of the feed item, if set.
    pub title_color: Option<String>,

    /// The body text of the feed item, if set.
    pub body: Option<String>,
}

/// The payload of a basic feed item request.
#[derive(Debug)]
pub struct Payload {
    /// The account whose feed the item is posted to.
    pub account_id: String,

    /// The kind of feed item; currently always "basic".
    pub item_type: String,

    /// The url the user is sent to after tapping the feed item, if set.
    pub url: Option<String>,

    /// The item's parameters.
    pub params: Params,
}

/// The JSON body a payload contributes, as flat key-value pairs in order.
pub open spec fn spec_payload_json(p: Payload) -> Seq<(Seq<char>, Seq<char>)> {
    seq![("account_id"@, p.account_id@), ("type"@, p.item_type@)] + spec_opt_pair("url"@, p.url)
        + seq![
        ("params[title]"@, p.params.title@),
        ("params[image_url]"@, p.params.image_url@),
    ] + spec_opt_pair("params[background_color]"@, p.params.background_color) + spec_opt_pair(
        "params[body_color]"@,
        p.params.body_color,
    ) + spec_opt_pair("params[title_color]"@, p.params.title_color) + spec_opt_pair(
        "params[body]"@,
        p.params.body,
    )
}

/// A request to create a new basic feed item.
///
/// Currently a 'basic' feed item is the only kind of feed item which is
/// supported.
///
/// Use the builder methods to set optional fields.
#[derive(Debug)]
#[must_use]
pub struct Basic {
    /// What is posted.
    pub payload: Payload,
}

impl Basic {
    /// A basic feed item on the given account with a title and an image.
    pub fn new(account_id: &str, title: &str, image_url: &str) -> (r: Basic)
        ensures
            r.payload.account_id@ == account_id@,
            r.payload.item_type@ == "basic"@,
            r.payload.url is None,
            r.payload.params.title@ == title@,
            r.payload.params.image_url@ == image_url@,
            r.payload.params.background_color is None,
            r.payload.params.body_color is None,
            r.payload.params.title_color is None,
            r.payload.params.body is None,
    {
        Basic {
            payload: Payload {
                account_id: String::from_str(account_id),
                item_type: String::from_str("basic"),
                url: None,
                params: Params {
                    title: String::from_str(title),
                    image_url: String::from_str(image_url),
                    background_color: None,
                    body_color: None,
                    title_color: None,
                    body: None,
                },
            },
        }
    }

    /// Set the url of the feed item.
    ///
    /// This is the url the user will be redirected to after tapping on the
    /// feed item.
    pub fn url(self, url: &str) -> (r: Basic)
        ensures
            r.payload.url matches Some(u) && u@ == url@,
            r.payload.account_id == self.payload.account_id,
            r.payload.item_type == self.payload.item_type,
            r.payload.params == self.payload.params,
    {
        Basic { payload: Payload { url: Some(String::from_str(url)), ..self.payload } }
    }

    /// Set the title of the feed item.
    pub fn title(self, title: &str) -> (r: Basic)
        ensures
            r.payload.params.title@ == title@,
            r.payload.account_id == self.payload.account_id,
            r.payload.item_type == self.payload.item_type,
            r.payload.url == self.payload.url,
            r.payload.params.image_url == self.payload.params.image_url,
            r.payload.params.background_color == self.payload.params.background_color,
            r.payload.params.body_color == self.payload.params.body_color,
            r.payload.params.title_color == self.payload.params.title_color,
            r.payload.params.body == self.payload.params.body,
    {
        Basic {
            payload: Payload {
                params: Params { title: String::from_str(title), ..self.payload.params },
                ..self.payload
            },
        }
    }

    /// Set the image of the feed item.
    pub fn image_url(self, image_url: &str) -> (r: Basic)
        ensures
            r.payload.params.image_url@ == image_url@,
            r.payload.account_id == self.payload.account_id,
            r.payload.item_type == self.payload.item_type,
            r.payload.url == self.payload.url,
            r.payload.params.title == self.payload.params.title,
            r.payload.params.background_color == self.payload.params.background_color,
            r.payload.params.body_color == self.payload.params.body_color,
            r.payload.params.title_color == self.payload.params.title_color,
            r.payload.params.body == self.payload.params.body,
    {
        Basic {
            payload: Payload {
                params: Params { image_url: String::from_str(image_url), ..self.payload.params },
                ..self.payload
            },
        }
    }

    /// Set the background colour of the feed item.
    pub fn background_color(self, background_color: &str) -> (r: Basic)
        ensures
            r.payload.params.background_color matches Some(c) && c@ == background_color@,
            r.payload.account_id == self.payload.account_id,
            r.payload.item_type == self.payload.item_type,
            r.payload.url == self.payload.url,
            r.payload.params.title == self.payload.params.title,
            r.payload.params.image_url == self.payload.params.image_url,
            r.payload.params.body_color == self.payload.params.body_color,
            r.payload.params.title_color == self.payload.params.title_color,
            r.payload.params.body == self.payload.params.body,
    {
        Basic {
            payload: Payload {
                params: Params {
                    background_color: Some(String::from_str(background_color)),
                    ..self.payload.params
                },
                ..self.payload
            },
        }
    }

    /// Set the body colour of the feed item.
    pub fn body_color(self, body_color: &str) -> (r: Basic)
        ensures
            r.payload.params.body_color matches Some(c) && c@ == body_color@,
            r.payload.account_id == self.payload.account_id,
            r.payload.item_type == self.payload.item_type,
            r.payload.url == self.payload.url,
            r.payload.params.title == self.payload.params.title,
            r.payload.params.image_url == self.payload.params.image_url,
            r.payload.params.background_color == self.payload.params.background_color,
            r.payload.params.title_color == self.payload.params.title_color,
            r.payload.params.body == self.payload.params.body,
    {
        Basic {
            payload: Payload {
                params: Params {
                    body_color: Some(String::from_str(body_color)),
                    ..self.payload.params
                },
                ..self.payload
            },
        }
    }

    /// Set the title colour of the feed item.
    pub fn title_color(self, title_color: &str) -> (r: Basic)
        ensures
            r.payload.params.title_color matches Some(c) && c@ == title_color@,
            r.payload.account_id == self.payload.account_id,
            r.payload.item_type == self.payload.item_type,
            r.payload.url == self.payload.url,
            r.payload.params.title == self.payload.params.title,
            r.payload.params.image_url == self.payload.params.image_url,
            r.payload.params.background_color == self.payload.params.background_color,
            r.payload.params.body_color == self.payload.params.body_color,
            r.payload.params.body == self.payload.params.body,
    {
        Basic {
            payload: Payload {
                params: Params {
                    title_color: Some(String::from_str(title_color)),
                    ..self.payload.params
                },
                ..self.payload
            },
        }
    }

    /// Set the body text of the feed item.
    pub fn body(self, body: &str) -> (r: Basic)
        ensures
            r.payload.params.body matches Some(b) && b@ == body@,
            r.payload.account_id == self.payload.account_id,
            r.payload.item_type == self.payload.item_type,
            r.payload.url == self.payload.url,
            r.payload.params.title == self.payload.params.title,
            r.payload.params.image_url == self.payload.params.image_url,
            r.payload.params.background_color == self.payload.params.background_color,
            r.payload.params.body_color == self.payload.params.body_color,
            r.payload.params.title_color == self.payload.params.title_color,
    {
        Basic {
            payload: Payload {
                params: Params { body: Some(String::from_str(body)), ..self.payload.params },
                ..self.payload
            },
        }
    }

    /// The descriptor of the call: an authenticated `POST` of `/feed` whose
    /// JSON body carries the payload's fields in order, leaving unset
    /// optional fields out.
    pub fn to_endpoint(&self) -> (e: Endpoint)
        ensures
            e.method == Method::Post,
            e.path@ == "/feed"@,
            e.auth_required,
            e.query@.len() == 0,
            e.form@.len() == 0,
            e.json.deep_view() == spec_payload_json(self.payload),
    {
        let mut e = Endpoint::new(Method::Post, String::from_str("/feed"));
        e.json.push(pair("account_id", self.payload.account_id.as_str()));
        e.json.push(pair("type", self.payload.item_type.as_str()));
        if let Some(u) = &self.payload.url {
            e.json.push(pair("url", u.as_str()));
        }
        e.json.push(pair("params[title]", self.payload.params.title.as_str()));
        e.json.push(pair("params[image_url]", self.payload.params.image_url.as_str()));
        if let Some(c) = &self.payload.params.background_color {
            e.json.push(pair("params[background_color]", c.as_str()));
        }
        if let Some(c) = &self.payload.params.body_color {
            e.json.push(pair("params[body_color]", c.as_str()));
        }
        if let Some(c) = &self.payload.params.title_color {
            e.json.push(pair("params[title_color]", c.as_str()));
        }
        if let Some(b) = &self.payload.params.body {
            e.json.push(pair("params[body]", b.as_str()));
        }
        proof {
            assert(e.json.deep_view() =~= spec_payload_json(self.payload));
        }
        e
    }
}

} // verus!
