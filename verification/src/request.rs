//! A request that has been put together and not yet sent.

use vstd::prelude::*;
use vstd::string::StringExecFns;

verus! {

/// Whether an endpoint wants the access token.
#[derive(Copy, Clone, Debug, PartialEq, Eq, Hash, Structural)]
pub enum Authentication {
    /// The endpoint is public.
    Public,
    /// The endpoint answers without a token and says more with one.
    Optional,
    /// The endpoint answers only with a token.
    Required,
}

impl Authentication {
    pub fn is_none(&self) -> (r: bool)
        ensures
            r == (*self == Authentication::Public),
    {
        matches!(self, Authentication::Public)
    }

    pub fn is_optional(&self) -> (r: bool)
        ensures
            r == (*self == Authentication::Optional),
    {
        matches!(self, Authentication::Optional)
    }

    pub fn is_required(&self) -> (r: bool)
        ensures
            r == (*self == Authentication::Required),
    {
        matches!(self, Authentication::Required)
    }
}

/// What a [`RequestBuilder`] stands for.
pub struct Request {
    /// The path and query, without scheme and host.
    pub uri: Seq<char>,
    pub authentication: Authentication,
    pub localized: bool,
}

/// A builder for creating endpoint requests.
pub struct RequestBuilder {
    uri: String,
    authentication: Authentication,
    localized: bool,
}

impl View for RequestBuilder {
    type V = Request;

    closed spec fn view(&self) -> Request {
        Request {
            uri: self.uri@,
            authentication: self.authentication,
            localized: self.localized,
        }
    }
}

impl RequestBuilder {
    /// A request for `uri` that needs no token and is not localized.
    pub fn new(uri: &str) -> (r: Self)
        ensures
            r@ == (Request {
                uri: uri@,
                authentication: Authentication::Public,
                localized: false,
            }),
    {
        Self {
            uri: String::from_str(uri),
            authentication: Authentication::Public,
            localized: false,
        }
    }

    /// The same request with the authentication requirement `v`.
    pub fn authenticated(self, v: Authentication) -> (r: Self)
        ensures
            r@ == (Request { authentication: v, ..self@ }),
    {
        let mut this = self;
        this.authentication = v;
        this
    }

    /// The same request, localized or not as `v` says.
    pub fn localized(self, v: bool) -> (r: Self)
        ensures
            r@ == (Request { localized: v, ..self@ }),
    {
        let mut this = self;
        this.localized = v;
        this
    }

    /// The path and query of the request.
    pub fn uri(&self) -> (r: &str)
        ensures
            r@ == self@.uri,
    {
        self.uri.as_str()
    }

    /// The authentication requirement of the request.
    pub fn authentication(&self) -> (r: Authentication)
        ensures
            r == self@.authentication,
    {
        self.authentication
    }

    /// Whether the answer depends on the client's language.
    pub fn is_localized(&self) -> (r: bool)
        ensures
            r == self@.localized,
    {
        self.localized
    }
}

} // verus!
