//! The transport connector: per request it either passes the established
//! plain byte stream through unchanged or plans a TLS client handshake, and
//! it wraps the outcome in a tagged plain/secure stream whose tag is fixed
//! at construction. The handshake itself is carried out by the caller that
//! owns the async transport, following the plan computed here.

use vstd::prelude::*;
use std::marker::PhantomData;
use std::sync::Arc;
use crate::context::{ensure_info_post, Context};
use crate::http::RequestModel;

verus! {

/// Declares rustls's ClientConfig, the TLS client configuration carried
/// through the connector; the library never looks inside a value of it.
#[verifier::external_type_specification]
#[verifier::external_body]
pub struct ExClientConfig(rustls::ClientConfig);

/// Declares tokio-rustls's client TlsStream, the secured stream a completed
/// handshake yields; the library only tags and carries a value of it.
#[verifier::external_type_specification]
#[verifier::external_body]
#[verifier::reject_recursive_types(IO)]
pub struct ExTlsStream<IO>(tokio_rustls::client::TlsStream<IO>);

/// Whether a host name is acceptable as a TLS server name: the exact set
/// of byte strings that parse as a DNS name or an IP address.
pub uninterp spec fn server_name_ok(host: Seq<u8>) -> bool;

/// Relies on rustls_pki_types::ServerName's TryFrom<&[u8]>: whether the
/// bytes parse as a server name (a DNS name or an IP address) depends on
/// the bytes alone.
#[verifier::external_body]
fn host_is_server_name(host: &[u8]) -> (r: bool)
    ensures
        r == server_name_ok(host@),
{
    rustls_pki_types::ServerName::try_from(host).is_ok()
}

/// Relies on std's Arc::clone: the clone is the same shared value.
#[verifier::external_body]
fn clone_config(config: &Arc<rustls::ClientConfig>) -> (r: Arc<rustls::ClientConfig>)
    ensures
        r == *config,
{
    config.clone()
}

/// Marks a connector that secures the connection only when the request
/// demands it, passing the plain stream through otherwise.
#[derive(Debug, Clone)]
pub struct ConnectorKindAuto;

/// Marks a connector that always secures the connection.
#[derive(Debug, Clone)]
pub struct ConnectorKindSecure;

/// A stream fixed at construction as either TLS-secured or plain.
#[verifier::reject_recursive_types(S)]
pub enum AutoTlsStream<S> {
    /// A TLS-secured stream.
    Secure(tokio_rustls::client::TlsStream<S>),
    /// A plain stream, passed through unchanged.
    Plain(S),
}

impl<S> AutoTlsStream<S> {
    /// Whether the stream was constructed as secured. The tag never
    /// changes after construction: no method of this type replaces it.
    pub open spec fn spec_is_secure(&self) -> bool {
        self matches AutoTlsStream::Secure(_)
    }

    /// Whether the stream was constructed as secured.
    pub fn is_secure(&self) -> (r: bool)
        ensures
            r == self.spec_is_secure(),
    {
        match self {
            AutoTlsStream::Secure(_) => true,
            AutoTlsStream::Plain(_) => false,
        }
    }

    /// Wrap a plain stream, unchanged, under the plain tag.
    pub fn plain(stream: S) -> (r: AutoTlsStream<S>)
        ensures
            r matches AutoTlsStream::Plain(s) && s == stream,
            !r.spec_is_secure(),
    {
        AutoTlsStream::Plain(stream)
    }

    /// Wrap a completed TLS client stream under the secure tag.
    pub fn secure(stream: tokio_rustls::client::TlsStream<S>) -> (r: AutoTlsStream<S>)
        ensures
            r matches AutoTlsStream::Secure(s) && s == stream,
            r.spec_is_secure(),
    {
        AutoTlsStream::Secure(stream)
    }
}

/// Why no connection could be planned for a request.
#[derive(Debug, PartialEq, Eq, Structural)]
pub enum TlsError {
    /// A secure connection was demanded but the request resolves to no
    /// host at all.
    MissingHost,
    /// The resolved host is not a valid TLS server name.
    InvalidHostName,
}

/// What to do with the established transport for one request: hand the
/// plain stream on unchanged, or run a TLS client handshake for `host`
/// with the given configuration (`None` meaning the process-wide default).
pub enum ConnectPlan {
    PassThrough,
    Handshake { host: Vec<u8>, config: Option<Arc<rustls::ClientConfig>> },
}

/// The configuration precedence for a handshake: an override stored in the
/// context wins, then the connector's own configuration, and `None` stands
/// for the process-wide default.
pub open spec fn spec_chosen_config(
    ctx_config: Option<Arc<rustls::ClientConfig>>,
    own_config: Option<Arc<rustls::ClientConfig>>,
) -> Option<Arc<rustls::ClientConfig>> {
    match ctx_config {
        Some(c) => Some(c),
        None => own_config,
    }
}

/// What `connect_plan` must return, given the request info that is in
/// force and the configuration choice: pass an insecure request through
/// untouched — no handshake at all — and for a secure request hand back a
/// handshake plan for the resolved host, failing exactly when the host is
/// missing or is no valid server name.
pub open spec fn plan_for(
    info: crate::context::RequestInfo,
    chosen: Option<Arc<rustls::ClientConfig>>,
    p: Result<ConnectPlan, TlsError>,
) -> bool {
    if !info.scheme.spec_secure() {
        p == Ok::<ConnectPlan, TlsError>(ConnectPlan::PassThrough)
    } else {
        match info.host {
            None => p == Err::<ConnectPlan, TlsError>(TlsError::MissingHost),
            Some(h) => if server_name_ok(h@) {
                p matches Ok(ConnectPlan::Handshake { host, config }) && host@ == h@ && config
                    == chosen
            } else {
                p == Err::<ConnectPlan, TlsError>(TlsError::InvalidHostName)
            },
        }
    }
}

/// What the secure-only connector must return, given the request info in
/// force and the configuration choice: always a handshake plan for the
/// resolved host, whatever the scheme, failing exactly when the host is
/// missing or is no valid server name.
pub open spec fn plan_secure_for(
    info: crate::context::RequestInfo,
    chosen: Option<Arc<rustls::ClientConfig>>,
    p: Result<ConnectPlan, TlsError>,
) -> bool {
    match info.host {
        None => p == Err::<ConnectPlan, TlsError>(TlsError::MissingHost),
        Some(h) => if server_name_ok(h@) {
            p matches Ok(ConnectPlan::Handshake { host, config }) && host@ == h@ && config
                == chosen
        } else {
            p == Err::<ConnectPlan, TlsError>(TlsError::InvalidHostName)
        },
    }
}

/// A connector which can be used to establish a connection to a server.
///
/// In auto mode it secures the transport only when the request demands it;
/// in secure-only mode it always does.
pub struct HttpsConnector<S, K = ConnectorKindAuto> {
    inner: S,
    config: Option<Arc<rustls::ClientConfig>>,
    _kind: PhantomData<K>,
}

impl<S, K> HttpsConnector<S, K> {
    /// The inner transport service this connector wraps.
    pub closed spec fn spec_inner(&self) -> &S {
        &self.inner
    }

    /// The connector's own configuration, if one was attached.
    pub closed spec fn spec_config(&self) -> Option<Arc<rustls::ClientConfig>> {
        self.config
    }

    /// Creates a new connector around an inner transport service, without
    /// a configuration of its own.
    pub fn new(inner: S) -> (r: Self)
        ensures
            r.spec_inner() == &inner,
            r.spec_config() is None,
    {
        Self { inner, config: None, _kind: PhantomData }
    }

    /// Attach a client config to this connector, to be used instead of the
    /// process-wide default.
    pub fn with_config(self, config: Arc<rustls::ClientConfig>) -> (r: Self)
        ensures
            r.spec_inner() == self.spec_inner(),
            r.spec_config() == Some(config),
    {
        Self { inner: self.inner, config: Some(config), _kind: PhantomData }
    }

    /// A reference to the inner transport service.
    pub fn inner(&self) -> (r: &S)
        ensures
            r == self.spec_inner(),
    {
        &self.inner
    }

    /// The handshake configuration in force for the given context: the
    /// context override first, then this connector's own configuration,
    /// `None` meaning the process-wide default.
    pub fn chosen_config<St>(&self, ctx: &Context<St>) -> (r: Option<Arc<rustls::ClientConfig>>)
        ensures
            r == spec_chosen_config(ctx.extensions.spec_client_config(), self.spec_config()),
    {
        match ctx.extensions.get_client_config() {
            Some(c) => Some(clone_config(c)),
            None => match &self.config {
                Some(c) => Some(clone_config(c)),
                None => None,
            },
        }
    }
}

impl<S> HttpsConnector<S, ConnectorKindAuto> {
    /// Creates a new connector which will establish a secure connection if
    /// the request demands it, and otherwise forwards the pre-established
    /// inner connection.
    pub fn auto(inner: S) -> (r: Self)
        ensures
            r.spec_inner() == &inner,
            r.spec_config() is None,
    {
        Self::new(inner)
    }

    /// Plan the transport for one request: memoize the request info in the
    /// context, pass an insecure request through — no handshake — and plan
    /// a handshake for the resolved host of a secure one.
    pub fn connect_plan<St>(&self, ctx: &mut Context<St>, req: &RequestModel) -> (p: Result<
        ConnectPlan,
        TlsError,
    >)
        ensures
            ensure_info_post(*old(ctx), *final(ctx), *req),
            final(ctx).extensions.spec_info() matches Some(info) && plan_for(
                info,
                spec_chosen_config(final(ctx).extensions.spec_client_config(), self.spec_config()),
                p,
            ),
    {
        let chosen = self.chosen_config(ctx);
        let info = ctx.get_or_insert_request_info(req);
        if !info.scheme.secure() {
            return Ok(ConnectPlan::PassThrough);
        }
        match &info.host {
            None => Err(TlsError::MissingHost),
            Some(h) => {
                let host = crate::context::clone_bytes(h);
                if host_is_server_name(host.as_slice()) {
                    Ok(ConnectPlan::Handshake { host, config: chosen })
                } else {
                    Err(TlsError::InvalidHostName)
                }
            },
        }
    }
}

impl<S> HttpsConnector<S, ConnectorKindSecure> {
    /// Creates a new connector which will always establish a secure
    /// connection regardless of the request it is for.
    pub fn secure_only(inner: S) -> (r: Self)
        ensures
            r.spec_inner() == &inner,
            r.spec_config() is None,
    {
        Self::new(inner)
    }

    /// Rewrite a request's declared scheme to its secure counterpart
    /// (http becomes https, ws becomes wss, all else stays), so that
    /// downstream consumers see a consistent secure URI.
    pub fn secure_request(&self, req: RequestModel) -> (r: RequestModel)
        ensures
            r.scheme == req.scheme.spec_secured(),
            r.method == req.method,
            r.host == req.host,
            r.port == req.port,
            r.headers == req.headers,
    {
        let RequestModel { method, scheme, host, port, headers } = req;
        RequestModel { method, scheme: scheme.secured(), host, port, headers }
    }

    /// Plan the transport for one request that must be secured: memoize
    /// the request info, then plan a handshake for the resolved host —
    /// never a pass-through, whatever the scheme says.
    pub fn connect_plan<St>(&self, ctx: &mut Context<St>, req: &RequestModel) -> (p: Result<
        ConnectPlan,
        TlsError,
    >)
        ensures
            ensure_info_post(*old(ctx), *final(ctx), *req),
            final(ctx).extensions.spec_info() matches Some(info) && plan_secure_for(
                info,
                spec_chosen_config(final(ctx).extensions.spec_client_config(), self.spec_config()),
                p,
            ),
            p is Ok ==> p matches Ok(ConnectPlan::Handshake { .. }),
    {
        let chosen = self.chosen_config(ctx);
        let info = ctx.get_or_insert_request_info(req);
        match &info.host {
            None => Err(TlsError::MissingHost),
            Some(h) => {
                let host = crate::context::clone_bytes(h);
                if host_is_server_name(host.as_slice()) {
                    Ok(ConnectPlan::Handshake { host, config: chosen })
                } else {
                    Err(TlsError::InvalidHostName)
                }
            },
        }
    }
}

/// A layer which wraps a transport service with an [`HttpsConnector`].
pub struct HttpsConnectorLayer<K = ConnectorKindAuto> {
    config: Option<Arc<rustls::ClientConfig>>,
    _kind: PhantomData<K>,
}

impl<K> HttpsConnectorLayer<K> {
    /// The configuration this layer hands to the connectors it builds.
    pub closed spec fn spec_config(&self) -> Option<Arc<rustls::ClientConfig>> {
        self.config
    }

    /// Creates a new layer without a configuration of its own.
    pub fn new() -> (r: Self)
        ensures
            r.spec_config() is None,
    {
        Self { config: None, _kind: PhantomData }
    }

    /// Attach a client config to this layer, to be used by the connectors
    /// it builds instead of the process-wide default.
    pub fn with_config(self, config: Arc<rustls::ClientConfig>) -> (r: Self)
        ensures
            r.spec_config() == Some(config),
    {
        Self { config: Some(config), _kind: PhantomData }
    }

    /// Wrap an inner transport service into a connector carrying this
    /// layer's configuration.
    pub fn layer<S>(&self, inner: S) -> (r: HttpsConnector<S, K>)
        ensures
            r.spec_inner() == &inner,
            r.spec_config() == self.spec_config(),
    {
        let connector = HttpsConnector::new(inner);
        match &self.config {
            Some(config) => connector.with_config(clone_config(config)),
            None => connector,
        }
    }
}

impl HttpsConnectorLayer<ConnectorKindAuto> {
    /// Creates a new layer whose connectors establish a secure connection
    /// only if the request demands it.
    pub fn auto() -> (r: Self)
        ensures
            r.spec_config() is None,
    {
        Self::new()
    }
}

impl HttpsConnectorLayer<ConnectorKindSecure> {
    /// Creates a new layer whose connectors always establish a secure
    /// connection.
    pub fn secure_only() -> (r: Self)
        ensures
            r.spec_config() is None,
    {
        Self::new()
    }
}

impl Default for HttpsConnectorLayer<ConnectorKindAuto> {
    /// The default layer secures connections on demand, with no
    /// configuration of its own.
    fn default() -> (r: Self)
        ensures
            r.spec_config() is None,
    {
        Self::auto()
    }
}

} // verus!
