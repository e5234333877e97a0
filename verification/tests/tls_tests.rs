use std::sync::Arc;

use proxy_core::context::Context;
use proxy_core::http::{Method, RequestModel, Scheme};
use proxy_core::tls::{
    AutoTlsStream, ConnectPlan, ConnectorKindSecure, HttpsConnector, HttpsConnectorLayer, TlsError,
};

fn require_send<T: Send>() {}

fn require_sync<T: Sync>() {}

#[test]
fn assert_send() {
    require_send::<HttpsConnectorLayer>();
}

#[test]
fn assert_sync() {
    require_sync::<HttpsConnectorLayer>();
}

fn request(scheme: Scheme, host: Option<&str>) -> RequestModel {
    RequestModel {
        method: Method::Get,
        scheme,
        host: host.map(|h| h.as_bytes().to_vec()),
        port: None,
        headers: Vec::new(),
    }
}

#[test]
fn auto_connector_passes_insecure_through() {
    let connector: HttpsConnector<(), _> = HttpsConnector::auto(());
    let mut ctx: Context<u8> = Context::new();
    let req = request(Scheme::Http, Some("example.com"));
    let plan = connector.connect_plan(&mut ctx, &req).expect("plan");
    assert!(matches!(plan, ConnectPlan::PassThrough));
}

#[test]
fn auto_connector_handshakes_for_secure_scheme() {
    let connector: HttpsConnector<(), _> = HttpsConnector::auto(());
    let mut ctx: Context<u8> = Context::new();
    let req = request(Scheme::Https, Some("example.com"));
    match connector.connect_plan(&mut ctx, &req).expect("plan") {
        ConnectPlan::Handshake { host, config } => {
            assert_eq!(host, b"example.com".to_vec());
            assert!(config.is_none());
        }
        ConnectPlan::PassThrough => panic!("secure request must not pass through"),
    }
}

#[test]
fn auto_connector_rejects_missing_host() {
    let connector: HttpsConnector<(), _> = HttpsConnector::auto(());
    let mut ctx: Context<u8> = Context::new();
    let req = request(Scheme::Https, None);
    match connector.connect_plan(&mut ctx, &req) {
        Err(err) => assert_eq!(err, TlsError::MissingHost),
        Ok(_) => panic!("a secure request without a host must fail"),
    }
}

#[test]
fn auto_connector_rejects_invalid_server_name() {
    let connector: HttpsConnector<(), _> = HttpsConnector::auto(());
    let mut ctx: Context<u8> = Context::new();
    let req = request(Scheme::Https, Some("not a hostname!"));
    match connector.connect_plan(&mut ctx, &req) {
        Err(err) => assert_eq!(err, TlsError::InvalidHostName),
        Ok(_) => panic!("an invalid server name must fail"),
    }
}

#[test]
fn secure_only_connector_always_handshakes() {
    let connector: HttpsConnector<(), ConnectorKindSecure> = HttpsConnector::secure_only(());
    let mut ctx: Context<u8> = Context::new();
    let req = request(Scheme::Http, Some("example.com"));
    match connector.connect_plan(&mut ctx, &req).expect("plan") {
        ConnectPlan::Handshake { host, .. } => assert_eq!(host, b"example.com".to_vec()),
        ConnectPlan::PassThrough => panic!("secure-only must never pass through"),
    }
}

#[test]
fn secure_request_rewrites_insecure_schemes() {
    let connector: HttpsConnector<(), ConnectorKindSecure> = HttpsConnector::secure_only(());
    let rewritten = connector.secure_request(request(Scheme::Http, Some("example.com")));
    assert!(matches!(rewritten.scheme, Scheme::Https));
    let rewritten = connector.secure_request(request(Scheme::Ws, Some("example.com")));
    assert!(matches!(rewritten.scheme, Scheme::Wss));
    let rewritten = connector.secure_request(request(Scheme::Https, Some("example.com")));
    assert!(matches!(rewritten.scheme, Scheme::Https));
    let custom = request(Scheme::Custom(b"ftp".to_vec()), Some("example.com"));
    let rewritten = connector.secure_request(custom);
    assert!(matches!(rewritten.scheme, Scheme::Custom(ref v) if v == b"ftp"));
}

#[test]
fn context_config_override_wins_over_connector_config() {
    let own = Arc::new(
        rustls::ClientConfig::builder()
            .with_root_certificates(rustls::RootCertStore::empty())
            .with_no_client_auth(),
    );
    let from_ctx = Arc::new(
        rustls::ClientConfig::builder()
            .with_root_certificates(rustls::RootCertStore::empty())
            .with_no_client_auth(),
    );
    let connector: HttpsConnector<(), _> = HttpsConnector::auto(()).with_config(own.clone());
    let mut ctx: Context<u8> = Context::new();
    ctx.extensions.insert_client_config(from_ctx.clone());
    let req = request(Scheme::Https, Some("example.com"));
    match connector.connect_plan(&mut ctx, &req).expect("plan") {
        ConnectPlan::Handshake { config, .. } => {
            let chosen = config.expect("config");
            assert!(Arc::ptr_eq(&chosen, &from_ctx));
            assert!(!Arc::ptr_eq(&chosen, &own));
        }
        ConnectPlan::PassThrough => panic!("secure request must not pass through"),
    }
}

#[test]
fn layer_hands_its_config_to_the_connector() {
    let own = Arc::new(
        rustls::ClientConfig::builder()
            .with_root_certificates(rustls::RootCertStore::empty())
            .with_no_client_auth(),
    );
    let layer = HttpsConnectorLayer::auto().with_config(own.clone());
    let connector = layer.layer(());
    let mut ctx: Context<u8> = Context::new();
    let req = request(Scheme::Https, Some("example.com"));
    match connector.connect_plan(&mut ctx, &req).expect("plan") {
        ConnectPlan::Handshake { config, .. } => {
            assert!(Arc::ptr_eq(&config.expect("config"), &own));
        }
        ConnectPlan::PassThrough => panic!("secure request must not pass through"),
    }
}

#[test]
fn auto_tls_stream_tag_is_fixed_at_construction() {
    let stream: AutoTlsStream<Vec<u8>> = AutoTlsStream::plain(Vec::new());
    assert!(!stream.is_secure());
    match stream {
        AutoTlsStream::Plain(inner) => assert!(inner.is_empty()),
        AutoTlsStream::Secure(_) => panic!("constructed plain"),
    }
}
