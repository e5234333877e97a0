use std::sync::Arc;

use proxy_core::context::{Context, RequestInfo};
use proxy_core::http::{Method, RequestModel, Scheme};

fn request(scheme: Scheme, host: &str) -> RequestModel {
    RequestModel {
        method: Method::Get,
        scheme,
        host: Some(host.as_bytes().to_vec()),
        port: Some(8080),
        headers: Vec::new(),
    }
}

#[test]
fn get_or_insert_memoizes_the_request_info() {
    let mut ctx: Context<u8> = Context::new();
    let req = request(Scheme::Https, "example.com");
    let first = ctx.get_or_insert_request_info(&req);
    assert!(matches!(first.scheme, Scheme::Https));
    assert_eq!(first.host, Some(b"example.com".to_vec()));
    assert_eq!(first.port, Some(8080));

    let other = request(Scheme::Http, "other.example");
    let second = ctx.get_or_insert_request_info(&other);
    assert!(
        matches!(second.scheme, Scheme::Https),
        "the second call returns the stored value, not a recomputation"
    );
    assert_eq!(second.host, Some(b"example.com".to_vec()));
}

#[test]
fn preseeded_info_is_returned_without_computation() {
    let mut ctx: Context<u8> = Context::new();
    let req = request(Scheme::Https, "example.com");
    ctx.get_or_insert_request_info(&req);
    let probe = request(Scheme::Ws, "probe.example");
    let seen = ctx.get_or_insert_request_info(&probe);
    assert_eq!(
        seen.host,
        Some(b"example.com".to_vec()),
        "a factory for the probe request was never consulted"
    );
}

#[test]
fn target_host_inserts_overwrites_and_removes() {
    let mut ctx: Context<u8> = Context::new();
    assert!(ctx.extensions.get_target_host().is_none());
    ctx.extensions.insert_target_host(b"one.example".to_vec());
    assert_eq!(ctx.extensions.get_target_host(), Some(&b"one.example".to_vec()));
    ctx.extensions.insert_target_host(b"two.example".to_vec());
    assert_eq!(
        ctx.extensions.get_target_host(),
        Some(&b"two.example".to_vec()),
        "insertion overwrites"
    );
    let removed = ctx.extensions.remove_target_host();
    assert_eq!(removed, Some(b"two.example".to_vec()));
    assert!(ctx.extensions.get_target_host().is_none(), "removal is explicit and final");
}

#[test]
fn context_carries_shared_state() {
    let state = Arc::new(7u8);
    let ctx = Context::with_state(state.clone());
    let held = ctx.state().expect("state");
    assert!(Arc::ptr_eq(held, &state));
    let empty: Context<u8> = Context::new();
    assert!(empty.state().is_none());
}

#[test]
fn request_info_of_request_copies_the_fields() {
    let req = request(Scheme::Wss, "example.com");
    let info = RequestInfo::of_request(&req);
    assert!(matches!(info.scheme, Scheme::Wss));
    assert_eq!(info.host, Some(b"example.com".to_vec()));
    assert_eq!(info.port, Some(8080));
}
