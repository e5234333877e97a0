use proxy_core::context::Context;
use proxy_core::http::{Method, RequestModel, Scheme};
use proxy_core::matcher::Matcher;
use proxy_core::upgrade::{
    accept_connect, is_normal_closure, upgrade_step, Tunnel, TunnelEnd, UpgradeEvent, UpgradeLayer,
    UpgradeState,
};

fn connect_request(host: Option<&str>) -> RequestModel {
    RequestModel {
        method: Method::Connect,
        scheme: Scheme::Http,
        host: host.map(|h| h.as_bytes().to_vec()),
        port: Some(443),
        headers: Vec::new(),
    }
}

fn relay_round_trip(payload: &[u8]) {
    let mut tunnel = Tunnel::new();
    tunnel.write_from_client(payload);
    let delivered = tunnel.read_at_server();
    assert_eq!(delivered, payload.to_vec());
    assert!(tunnel.read_at_server().is_empty(), "the channel drained");

    tunnel.write_from_server(payload);
    let delivered = tunnel.read_at_client();
    assert_eq!(delivered, payload.to_vec());
}

#[test]
fn tunnel_relays_empty_payload() {
    relay_round_trip(&[]);
}

#[test]
fn tunnel_relays_one_byte() {
    relay_round_trip(&[42]);
}

#[test]
fn tunnel_relays_large_payload_unmodified() {
    let payload: Vec<u8> = (0..70_000u32).map(|i| (i % 251) as u8).collect();
    relay_round_trip(&payload);
}

#[test]
fn tunnel_keeps_order_across_writes() {
    let mut tunnel = Tunnel::new();
    tunnel.write_from_client(b"hello ");
    tunnel.write_from_client(b"world");
    assert_eq!(tunnel.read_at_server(), b"hello world".to_vec());
}

#[test]
fn accept_records_target_host_and_succeeds() {
    let mut ctx: Context<u8> = Context::new();
    let resp = accept_connect(&mut ctx, &connect_request(Some("example.com"))).expect("accepted");
    assert_eq!(resp.status, 200);
    assert_eq!(
        ctx.extensions.get_target_host(),
        Some(&b"example.com".to_vec())
    );
}

#[test]
fn accept_rejects_non_connect_and_missing_host() {
    let mut ctx: Context<u8> = Context::new();
    let err = accept_connect(&mut ctx, &connect_request(None)).unwrap_err();
    assert_eq!(err.status, 400);
    assert!(ctx.extensions.get_target_host().is_none());

    let ordinary = RequestModel {
        method: Method::Get,
        scheme: Scheme::Http,
        host: Some(b"example.com".to_vec()),
        port: None,
        headers: Vec::new(),
    };
    let err = accept_connect(&mut ctx, &ordinary).unwrap_err();
    assert_eq!(err.status, 400);
    assert!(ctx.extensions.get_target_host().is_none());
}

#[test]
fn accepted_upgrade_walks_to_the_tunnel() {
    let mut s = UpgradeState::Normal;
    s = upgrade_step(s, UpgradeEvent::RequestMatched(true));
    assert_eq!(s, UpgradeState::Accepting);
    s = upgrade_step(s, UpgradeEvent::AcceptDecided(true));
    assert_eq!(s, UpgradeState::Accepted);
    s = upgrade_step(s, UpgradeEvent::TransportDetached);
    assert_eq!(s, UpgradeState::Upgrading);
    s = upgrade_step(s, UpgradeEvent::TunnelEstablished);
    assert_eq!(s, UpgradeState::Tunneling);
    s = upgrade_step(s, UpgradeEvent::TunnelEnded);
    assert_eq!(s, UpgradeState::Closed);
}

#[test]
fn rejected_upgrade_continues_ordinary_service() {
    let mut s = UpgradeState::Normal;
    s = upgrade_step(s, UpgradeEvent::RequestMatched(true));
    s = upgrade_step(s, UpgradeEvent::AcceptDecided(false));
    assert_eq!(s, UpgradeState::Rejected);
    s = upgrade_step(s, UpgradeEvent::RequestMatched(false));
    assert_eq!(s, UpgradeState::Normal, "the connection serves ordinary requests again");
    s = upgrade_step(s, UpgradeEvent::RequestMatched(true));
    assert_eq!(s, UpgradeState::Accepting, "a later request may try the upgrade again");
}

#[test]
fn closure_classification() {
    assert!(is_normal_closure(TunnelEnd::Eof));
    assert!(is_normal_closure(TunnelEnd::PeerReset));
    assert!(is_normal_closure(TunnelEnd::PipeBroken));
    assert!(!is_normal_closure(TunnelEnd::Fault));
}

#[test]
fn upgrade_layer_gates_on_its_matcher() {
    let layer = UpgradeLayer::new(Matcher::MethodIs(Method::Connect));
    let mut ctx: Context<u8> = Context::new();

    let ordinary = RequestModel {
        method: Method::Get,
        scheme: Scheme::Http,
        host: Some(b"example.com".to_vec()),
        port: None,
        headers: Vec::new(),
    };
    let (state, resp) = layer.offer(UpgradeState::Normal, &mut ctx, &ordinary);
    assert_eq!(state, UpgradeState::Normal);
    assert!(resp.is_none());
    assert!(ctx.extensions.get_target_host().is_none());

    let (state, resp) = layer.offer(UpgradeState::Normal, &mut ctx, &connect_request(Some("example.com")));
    assert_eq!(state, UpgradeState::Accepted);
    let resp = resp.expect("the accept step answered");
    assert!(resp.is_success());
    assert_eq!(ctx.extensions.get_target_host(), Some(&b"example.com".to_vec()));

    let mut ctx: Context<u8> = Context::new();
    let (state, resp) = layer.offer(UpgradeState::Normal, &mut ctx, &connect_request(None));
    assert_eq!(state, UpgradeState::Rejected);
    assert!(!resp.expect("the accept step answered").is_success());
    assert!(ctx.extensions.get_target_host().is_none());
}
