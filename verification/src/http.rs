//! The request and response shapes the pipeline works on: a request exposes
//! its method, URI scheme, host and port, and header lookup; a response is
//! constructed from a status code and a body. Wire parsing and serialization
//! stay outside the core.

use vstd::prelude::*;
use crate::domain::lower_bytes;
use crate::util::{bytes_eq, lower_bytes_eq};

verus! {

/// A request method, with the common methods the pipeline dispatches on
/// spelled out and every other one carried as raw bytes.
#[derive(Debug)]
pub enum Method {
    Get,
    Post,
    Connect,
    Other(Vec<u8>),
}

/// Do two methods denote the same method?
pub open spec fn method_is(a: Method, b: Method) -> bool {
    match (a, b) {
        (Method::Get, Method::Get) => true,
        (Method::Post, Method::Post) => true,
        (Method::Connect, Method::Connect) => true,
        (Method::Other(x), Method::Other(y)) => x@ == y@,
        _ => false,
    }
}

/// Decide whether two methods denote the same method.
pub fn method_eq(a: &Method, b: &Method) -> (r: bool)
    ensures
        r == method_is(*a, *b),
{
    match (a, b) {
        (Method::Get, Method::Get) => true,
        (Method::Post, Method::Post) => true,
        (Method::Connect, Method::Connect) => true,
        (Method::Other(x), Method::Other(y)) => bytes_eq(x.as_slice(), y.as_slice()),
        _ => false,
    }
}

/// The declared scheme of a request URI.
#[derive(Debug)]
pub enum Scheme {
    Http,
    Https,
    Ws,
    Wss,
    Empty,
    Custom(Vec<u8>),
}

impl Scheme {
    /// Whether the scheme calls for a TLS-secured transport.
    pub open spec fn spec_secure(&self) -> bool {
        match *self {
            Scheme::Https => true,
            Scheme::Wss => true,
            _ => false,
        }
    }

    /// Decide whether the scheme calls for a TLS-secured transport.
    pub fn secure(&self) -> (r: bool)
        ensures
            r == self.spec_secure(),
    {
        match self {
            Scheme::Https => true,
            Scheme::Wss => true,
            _ => false,
        }
    }

    /// The secure counterpart of a scheme: `http` becomes `https` and `ws`
    /// becomes `wss`; every other scheme, already secure or without a known
    /// secure counterpart, is left unchanged.
    pub open spec fn spec_secured(self) -> Scheme {
        match self {
            Scheme::Http => Scheme::Https,
            Scheme::Ws => Scheme::Wss,
            other => other,
        }
    }

    /// Rewrite the scheme to its secure counterpart, leaving schemes without
    /// a known insecure/secure pairing untouched.
    pub fn secured(self) -> (r: Scheme)
        ensures
            r == self.spec_secured(),
            r.spec_secure() == (self.spec_secure() || self matches Scheme::Http || self
                matches Scheme::Ws),
    {
        match self {
            Scheme::Http => Scheme::Https,
            Scheme::Ws => Scheme::Wss,
            other => other,
        }
    }
}

/// One request header, name and value as raw bytes.
#[derive(Debug)]
pub struct Header {
    pub name: Vec<u8>,
    pub value: Vec<u8>,
}

/// The view of a request the pipeline needs: method, the URI parts it
/// routes on, and the header list in delivery order.
#[derive(Debug)]
pub struct RequestModel {
    pub method: Method,
    pub scheme: Scheme,
    pub host: Option<Vec<u8>>,
    pub port: Option<u16>,
    pub headers: Vec<Header>,
}

impl RequestModel {
    /// Whether a header with the given name is present, names compared up
    /// to ASCII case.
    pub open spec fn spec_has_header(&self, name: Seq<u8>) -> bool {
        exists|i: int|
            0 <= i < self.headers@.len() && lower_bytes(self.headers@[i].name@) == lower_bytes(name)
    }

    /// Look for a header with the given name, ASCII-case-insensitively.
    pub fn has_header(&self, name: &[u8]) -> (r: bool)
        ensures
            r == self.spec_has_header(name@),
    {
        let n = self.headers.len();
        let mut i: usize = 0;
        while i < n
            invariant
                i <= n,
                n == self.headers@.len(),
                forall|j: int|
                    0 <= j < i ==> lower_bytes(self.headers@[j].name@) != lower_bytes(name@),
            decreases n - i,
        {
            if lower_bytes_eq(self.headers[i].name.as_slice(), name) {
                return true;
            }
            i += 1;
        }
        false
    }
}

/// The view of a response the pipeline needs: a status code and a body.
#[derive(Debug)]
pub struct Response {
    pub status: u16,
    pub body: Vec<u8>,
}

impl Response {
    /// Build a response from a status code and a body.
    pub fn new(status: u16, body: Vec<u8>) -> (r: Response)
        ensures
            r.status == status,
            r.body@ == body@,
    {
        Response { status, body }
    }

    /// Whether the status code denotes success.
    pub open spec fn spec_is_success(&self) -> bool {
        200 <= self.status < 300
    }

    /// Decide whether the status code denotes success.
    pub fn is_success(&self) -> (r: bool)
        ensures
            r == self.spec_is_success(),
    {
        200 <= self.status && self.status < 300
    }
}

} // verus!
