use proxy_core::context::Context;
use proxy_core::http::{Method, RequestModel, Scheme};
use proxy_core::matcher::Matcher;
use proxy_core::service::{
    ConsumeErrService, CountingService, FailingService, HijackLayer, HijackService, PipelineError,
    Service, StaticService,
};

fn request() -> RequestModel {
    RequestModel {
        method: Method::Get,
        scheme: Scheme::Http,
        host: Some(b"example.com".to_vec()),
        port: None,
        headers: Vec::new(),
    }
}

#[test]
fn hijack_dispatches_to_alternate_on_match() {
    let mut svc = HijackService {
        matcher: Matcher::Always(true),
        inner: CountingService::new(200),
        alternate: CountingService::new(201),
    };
    let ctx: Context<u8> = Context::new();
    let resp = svc.serve(ctx, request()).expect("response");
    assert_eq!(resp.status, 201, "the alternate service answers");
    assert_eq!(svc.inner.count, 0, "the inner service is not consulted");
    assert_eq!(svc.alternate.count, 1);
}

#[test]
fn hijack_delegates_to_inner_when_not_matching() {
    let mut svc = HijackService {
        matcher: Matcher::Always(false),
        inner: CountingService::new(200),
        alternate: CountingService::new(201),
    };
    let ctx: Context<u8> = Context::new();
    let resp = svc.serve(ctx, request()).expect("response");
    assert_eq!(resp.status, 200, "the inner service answers");
    assert_eq!(svc.inner.count, 1, "the inner service is consulted exactly once");
    assert_eq!(svc.alternate.count, 0);
}

#[test]
fn hijack_layer_builds_the_gated_service() {
    let layer = HijackLayer::new(Matcher::Always(true), StaticService {
        status: 307,
        body: b"redirect".to_vec(),
    });
    let mut svc = layer.layer(CountingService::new(200));
    let ctx: Context<u8> = Context::new();
    let resp = svc.serve(ctx, request()).expect("response");
    assert_eq!(resp.status, 307);
    assert_eq!(resp.body, b"redirect".to_vec());
    assert_eq!(svc.inner.count, 0);
}

#[test]
fn static_service_answers_every_request_alike() {
    let mut svc = StaticService { status: 204, body: Vec::new() };
    let ctx: Context<u8> = Context::new();
    let resp = svc.serve(ctx, request()).expect("response");
    assert_eq!(resp.status, 204);
    assert!(resp.body.is_empty());
}

#[test]
fn failing_service_reports_its_error() {
    let mut svc = FailingService { error: PipelineError::Transport };
    let ctx: Context<u8> = Context::new();
    let err = svc.serve(ctx, request()).unwrap_err();
    assert_eq!(err, PipelineError::Transport);
}

#[test]
fn consume_err_resolves_errors_into_a_response() {
    let mut svc = ConsumeErrService {
        inner: FailingService { error: PipelineError::Internal },
        error_status: 500,
    };
    let ctx: Context<u8> = Context::new();
    let resp = svc.serve(ctx, request()).expect("errors are consumed");
    assert_eq!(resp.status, 500);

    let mut ok = ConsumeErrService {
        inner: StaticService { status: 200, body: b"ok".to_vec() },
        error_status: 500,
    };
    let ctx: Context<u8> = Context::new();
    let resp = ok.serve(ctx, request()).expect("response");
    assert_eq!(resp.status, 200);
    assert_eq!(resp.body, b"ok".to_vec());
}
