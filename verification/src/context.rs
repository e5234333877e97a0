//! The per-request context: an optional shared-ownership state and a
//! type-keyed extension bag holding at most one value per extension kind,
//! with overwriting insertion, explicit removal, and get-or-insert
//! memoization.

use vstd::prelude::*;
use vstd::slice::slice_to_vec;
use std::sync::Arc;
use crate::http::{RequestModel, Scheme};

verus! {

/// Facts about a request that are computed once and then memoized in the
/// context: its resolved scheme, host and port.
#[derive(Debug)]
pub struct RequestInfo {
    pub scheme: Scheme,
    pub host: Option<Vec<u8>>,
    pub port: Option<u16>,
}

/// Do two schemes denote the same scheme?
pub open spec fn scheme_is(a: Scheme, b: Scheme) -> bool {
    match (a, b) {
        (Scheme::Http, Scheme::Http) => true,
        (Scheme::Https, Scheme::Https) => true,
        (Scheme::Ws, Scheme::Ws) => true,
        (Scheme::Wss, Scheme::Wss) => true,
        (Scheme::Empty, Scheme::Empty) => true,
        (Scheme::Custom(x), Scheme::Custom(y)) => x@ == y@,
        _ => false,
    }
}

/// Do two optional byte strings hold the same bytes?
pub open spec fn opt_bytes_is(a: Option<Vec<u8>>, b: Option<Vec<u8>>) -> bool {
    match (a, b) {
        (Some(x), Some(y)) => x@ == y@,
        (None, None) => true,
        _ => false,
    }
}

/// Is `i` the request info that belongs to `req`?
pub open spec fn info_of_request(i: RequestInfo, req: RequestModel) -> bool {
    &&& scheme_is(i.scheme, req.scheme)
    &&& opt_bytes_is(i.host, req.host)
    &&& i.port == req.port
}

/// Copy a byte vector.
pub fn clone_bytes(v: &Vec<u8>) -> (r: Vec<u8>)
    ensures
        r@ == v@,
{
    slice_to_vec(v.as_slice())
}

/// Copy an optional byte vector.
pub fn clone_opt_bytes(v: &Option<Vec<u8>>) -> (r: Option<Vec<u8>>)
    ensures
        opt_bytes_is(r, *v),
{
    match v {
        Some(b) => Some(clone_bytes(b)),
        None => None,
    }
}

/// Copy a scheme.
pub fn clone_scheme(s: &Scheme) -> (r: Scheme)
    ensures
        scheme_is(r, *s),
{
    match s {
        Scheme::Http => Scheme::Http,
        Scheme::Https => Scheme::Https,
        Scheme::Ws => Scheme::Ws,
        Scheme::Wss => Scheme::Wss,
        Scheme::Empty => Scheme::Empty,
        Scheme::Custom(v) => Scheme::Custom(clone_bytes(v)),
    }
}

impl RequestInfo {
    /// Compute the request info of a request.
    pub fn of_request(req: &RequestModel) -> (r: RequestInfo)
        ensures
            info_of_request(r, *req),
    {
        RequestInfo {
            scheme: clone_scheme(&req.scheme),
            host: clone_opt_bytes(&req.host),
            port: req.port,
        }
    }
}

/// The type-keyed extension bag: at most one value per extension kind.
/// Inserting overwrites, removal is explicit, and lookups hand back what
/// was stored.
pub struct Extensions {
    info: Option<RequestInfo>,
    target_host: Option<Vec<u8>>,
    client_config: Option<Arc<rustls::ClientConfig>>,
}

impl Extensions {
    /// The stored request info, if any.
    pub closed spec fn spec_info(&self) -> Option<RequestInfo> {
        self.info
    }

    /// The stored tunnel target host, if any.
    pub closed spec fn spec_target_host(&self) -> Option<Vec<u8>> {
        self.target_host
    }

    /// The stored TLS client configuration override, if any.
    pub closed spec fn spec_client_config(&self) -> Option<Arc<rustls::ClientConfig>> {
        self.client_config
    }

    /// An empty bag.
    pub fn new() -> (r: Extensions)
        ensures
            r.spec_info() is None,
            r.spec_target_host() is None,
            r.spec_client_config() is None,
    {
        Extensions { info: None, target_host: None, client_config: None }
    }

    /// Look up the stored request info.
    pub fn get_request_info(&self) -> (r: Option<&RequestInfo>)
        ensures
            match r {
                Some(i) => self.spec_info() == Some(*i),
                None => self.spec_info() is None,
            },
    {
        self.info.as_ref()
    }

    /// Store the tunnel target host, overwriting any previous value.
    pub fn insert_target_host(&mut self, host: Vec<u8>)
        ensures
            final(self).spec_target_host() == Some(host),
            final(self).spec_info() == old(self).spec_info(),
            final(self).spec_client_config() == old(self).spec_client_config(),
    {
        self.target_host = Some(host);
    }

    /// Look up the stored tunnel target host.
    pub fn get_target_host(&self) -> (r: Option<&Vec<u8>>)
        ensures
            match r {
                Some(h) => self.spec_target_host() == Some(*h),
                None => self.spec_target_host() is None,
            },
    {
        self.target_host.as_ref()
    }

    /// Remove and return the stored tunnel target host.
    pub fn remove_target_host(&mut self) -> (r: Option<Vec<u8>>)
        ensures
            r == old(self).spec_target_host(),
            final(self).spec_target_host() is None,
            final(self).spec_info() == old(self).spec_info(),
            final(self).spec_client_config() == old(self).spec_client_config(),
    {
        self.target_host.take()
    }

    /// Store a TLS client configuration override, overwriting any previous
    /// one.
    pub fn insert_client_config(&mut self, config: Arc<rustls::ClientConfig>)
        ensures
            final(self).spec_client_config() == Some(config),
            final(self).spec_info() == old(self).spec_info(),
            final(self).spec_target_host() == old(self).spec_target_host(),
    {
        self.client_config = Some(config);
    }

    /// Look up the stored TLS client configuration override.
    pub fn get_client_config(&self) -> (r: Option<&Arc<rustls::ClientConfig>>)
        ensures
            match r {
                Some(c) => self.spec_client_config() == Some(*c),
                None => self.spec_client_config() is None,
            },
    {
        self.client_config.as_ref()
    }
}

/// The per-request context, moved through the pipeline: an optional
/// shared-ownership state and the extension bag.
pub struct Context<St> {
    pub state: Option<Arc<St>>,
    pub extensions: Extensions,
}

/// The relation between a context before and after a get-or-insert of the
/// request info: when the info was already present nothing changes at all;
/// otherwise exactly the info slot is filled, with the info belonging to
/// the request, and everything else is untouched.
pub open spec fn ensure_info_post<St>(pre: Context<St>, post: Context<St>, req: RequestModel) -> bool {
    match pre.extensions.spec_info() {
        Some(_) => post == pre,
        None => {
            &&& post.extensions.spec_info() matches Some(i) && info_of_request(i, req)
            &&& post.extensions.spec_target_host() == pre.extensions.spec_target_host()
            &&& post.extensions.spec_client_config() == pre.extensions.spec_client_config()
            &&& post.spec_state() == pre.spec_state()
        },
    }
}

impl<St> Context<St> {
    /// The shared state, if any.
    pub open spec fn spec_state(&self) -> Option<Arc<St>> {
        self.state
    }

    /// A context without shared state and with an empty extension bag.
    pub fn new() -> (r: Context<St>)
        ensures
            r.spec_state() is None,
            r.extensions.spec_info() is None,
            r.extensions.spec_target_host() is None,
            r.extensions.spec_client_config() is None,
    {
        Context { state: None, extensions: Extensions::new() }
    }

    /// A context carrying the given shared state, with an empty extension
    /// bag.
    pub fn with_state(state: Arc<St>) -> (r: Context<St>)
        ensures
            r.spec_state() == Some(state),
            r.extensions.spec_info() is None,
            r.extensions.spec_target_host() is None,
            r.extensions.spec_client_config() is None,
    {
        Context { state: Some(state), extensions: Extensions::new() }
    }

    /// The shared state, if any.
    pub fn state(&self) -> (r: Option<&Arc<St>>)
        ensures
            match r {
                Some(s) => self.spec_state() == Some(*s),
                None => self.spec_state() is None,
            },
    {
        self.state.as_ref()
    }

    /// Get the memoized request info, computing and storing it on the
    /// first call: a second call for the same slot hands back the stored
    /// value without recomputing anything and without touching the
    /// context.
    pub fn get_or_insert_request_info(&mut self, req: &RequestModel) -> (r: &RequestInfo)
        ensures
            ensure_info_post(*old(self), *final(self), *req),
            final(self).extensions.spec_info() == Some(*r),
    {
        if self.extensions.info.is_none() {
            self.extensions.info = Some(RequestInfo::of_request(req));
        }
        match &self.extensions.info {
            Some(i) => i,
            None => vstd::pervasive::unreached(),
        }
    }
}

/// Memoization: once a get-or-insert has run, running it again returns the
/// very value that is stored and leaves the whole context unchanged — two
/// calls have the same effect as one, and the second performs no
/// computation that is visible in the state.
pub proof fn lemma_get_or_insert_is_memoized<St>(
    c0: Context<St>,
    c1: Context<St>,
    c2: Context<St>,
    req: RequestModel,
)
    requires
        ensure_info_post(c0, c1, req),
        ensure_info_post(c1, c2, req),
    ensures
        c2 == c1,
        c1.extensions.spec_info() is Some,
{
}

} // verus!
