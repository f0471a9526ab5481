//! The request that the engine reads and the response that it builds, as
//! plain values.
use crate::content_neg::{Encoding, MediaType};
use crate::hyper_headers::AcceptCharset;
use crate::precondition::{EntityTagMatch, Timestamp};
use crate::preference::QualityItem;
use vstd::prelude::*;

verus! {

/// The method of a request.
#[derive(Debug, PartialEq, Eq)]
pub enum Method {
    /// GET
    Get,
    /// HEAD
    Head,
    /// POST
    Post,
    /// PUT
    Put,
    /// PATCH
    Patch,
    /// DELETE
    Delete,
    /// OPTIONS
    Options,
    /// Any other method, by its name.
    Other(String),
}

impl Method {
    /// Whether the method is one of the seven that the engine knows.
    pub open spec fn known(self) -> bool {
        !(self is Other)
    }

    /// Whether the method retrieves a representation: GET or HEAD.
    pub open spec fn retrieves(self) -> bool {
        self is Get || self is Head
    }

    /// Whether the method is one of the seven that the engine knows.
    pub fn is_known(&self) -> (b: bool)
        ensures
            b == self.known(),
    {
        match self {
            Method::Other(_) => false,
            _ => true,
        }
    }

    /// Whether the method is GET or HEAD.
    pub fn is_retrieval(&self) -> (b: bool)
        ensures
            b == self.retrieves(),
    {
        match self {
            Method::Get | Method::Head => true,
            _ => false,
        }
    }
}

/// A parsed request.  A header that is absent, or that could not be parsed,
/// is `None`.
#[derive(Debug, PartialEq, Eq)]
pub struct Request {
    /// The method.
    pub method: Method,
    /// The request target.
    pub uri: String,
    /// `Accept`
    pub accept: Option<Vec<QualityItem<MediaType>>>,
    /// `Accept-Language`
    pub accept_language: Option<Vec<QualityItem<String>>>,
    /// `Accept-Charset`
    pub accept_charset: Option<AcceptCharset>,
    /// `Accept-Encoding`
    pub accept_encoding: Option<Vec<QualityItem<Encoding>>>,
    /// `If-Match`
    pub if_match: Option<EntityTagMatch>,
    /// `If-None-Match`
    pub if_none_match: Option<EntityTagMatch>,
    /// `If-Modified-Since`
    pub if_modified_since: Option<Timestamp>,
    /// `If-Unmodified-Since`
    pub if_unmodified_since: Option<Timestamp>,
}

impl Request {
    /// A request of the given method and target, without any of the headers
    /// that the engine reads.
    pub fn new(method: Method, uri: String) -> (r: Self)
        ensures
            r.method == method,
            r.uri == uri,
            r.accept is None,
            r.accept_language is None,
            r.accept_charset is None,
            r.accept_encoding is None,
            r.if_match is None,
            r.if_none_match is None,
            r.if_modified_since is None,
            r.if_unmodified_since is None,
    {
        Request {
            method,
            uri,
            accept: None,
            accept_language: None,
            accept_charset: None,
            accept_encoding: None,
            if_match: None,
            if_none_match: None,
            if_modified_since: None,
            if_unmodified_since: None,
        }
    }
}

/// The response under construction.
#[derive(Debug, PartialEq, Eq)]
pub struct Response {
    /// The status code, once something has set one.
    pub status: Option<u16>,
    /// `Content-Type`, once negotiated or set.
    pub content_type: Option<MediaType>,
    /// `Content-Language`, once negotiated or set.
    pub content_language: Option<String>,
    /// The charset of the body, once negotiated or set.
    pub charset: Option<String>,
    /// Further headers, as (name, value) pairs in the order they were added.
    pub headers: Vec<(String, String)>,
    /// The body.
    pub body: String,
}

impl Response {
    /// A fresh response: no status, no headers, an empty body.
    pub fn new() -> (r: Self)
        ensures
            r.status is None,
            r.content_type is None,
            r.content_language is None,
            r.charset is None,
            r.headers@.len() == 0,
            r.body@.len() == 0,
    {
        Response {
            status: None,
            content_type: None,
            content_language: None,
            charset: None,
            headers: Vec::new(),
            body: String::new(),
        }
    }

    /// Sets the status to `status` and the body to `body`, and leaves the
    /// rest as it is.
    pub fn set_status_and_body(&mut self, status: u16, body: &str)
        ensures
            final(self).status == Some(status),
            final(self).body@ == body@,
            final(self).content_type == old(self).content_type,
            final(self).content_language == old(self).content_language,
            final(self).charset == old(self).charset,
            final(self).headers == old(self).headers,
    {
        self.status = Some(status);
        self.body = body.to_owned();
    }
}

} // verus!
