//! Services and middleware: a service turns a context and a request into a
//! response or an error; middleware wraps an inner service, may act before
//! or after delegating, may short-circuit with its own response, and
//! matcher-gated hijacking dispatches entirely to an alternate service when
//! its matcher matches.

use vstd::prelude::*;
use crate::context::{clone_bytes, Context};
use crate::http::{RequestModel, Response};
use crate::matcher::Matcher;

verus! {

/// The error taxonomy of the pipeline: configuration errors are fatal at
/// setup, protocol violations become error responses from the responsible
/// layer, transport failures tear down the affected connection, and
/// internal faults are converted to a generic error response at the
/// outermost layer.
#[derive(Debug, PartialEq, Eq, Structural, Clone, Copy)]
pub enum PipelineError {
    Config,
    Protocol,
    Transport,
    Internal,
}

/// The mathematical view of a serve outcome: the status and body bytes of
/// the response, or the error.
pub open spec fn outcome_view(r: Result<Response, PipelineError>) -> Result<
    (u16, Seq<u8>),
    PipelineError,
> {
    match r {
        Ok(resp) => Ok((resp.status, resp.body@)),
        Err(e) => Err(e),
    }
}

/// A service: the unit of the pipeline, turning a context and a request
/// into a response or an error, possibly updating its own state. Each
/// implementation says, as a specification function, which outcome it
/// yields and which state it leaves behind; `serve` is bound to both.
pub trait Service<St>: Sized {
    /// The outcome this service yields on the given context and request.
    spec fn spec_outcome(&self, ctx: Context<St>, req: RequestModel) -> Result<
        (u16, Seq<u8>),
        PipelineError,
    >;

    /// The state this service is left in after serving.
    spec fn spec_next(&self, ctx: Context<St>, req: RequestModel) -> Self;

    /// Serve one request.
    fn serve(&mut self, ctx: Context<St>, req: RequestModel) -> (r: Result<
        Response,
        PipelineError,
    >)
        ensures
            outcome_view(r) == old(self).spec_outcome(ctx, req),
            *final(self) == old(self).spec_next(ctx, req),
    ;
}

/// A stateless service answering every request with the same response.
pub struct StaticService {
    pub status: u16,
    pub body: Vec<u8>,
}

impl<St> Service<St> for StaticService {
    open spec fn spec_outcome(&self, ctx: Context<St>, req: RequestModel) -> Result<
        (u16, Seq<u8>),
        PipelineError,
    > {
        Ok((self.status, self.body@))
    }

    open spec fn spec_next(&self, ctx: Context<St>, req: RequestModel) -> Self {
        *self
    }

    fn serve(&mut self, ctx: Context<St>, req: RequestModel) -> (r: Result<
        Response,
        PipelineError,
    >) {
        Ok(Response::new(self.status, clone_bytes(&self.body)))
    }
}

/// A service that counts how often it was invoked and answers with an
/// empty response carrying the configured status; the count saturates.
pub struct CountingService {
    pub count: u64,
    pub status: u16,
}

impl CountingService {
    /// A fresh counter at zero.
    pub fn new(status: u16) -> (r: CountingService)
        ensures
            r.count == 0,
            r.status == status,
    {
        CountingService { count: 0, status }
    }
}

impl<St> Service<St> for CountingService {
    open spec fn spec_outcome(&self, ctx: Context<St>, req: RequestModel) -> Result<
        (u16, Seq<u8>),
        PipelineError,
    > {
        Ok((self.status, Seq::empty()))
    }

    open spec fn spec_next(&self, ctx: Context<St>, req: RequestModel) -> Self {
        CountingService {
            count: if self.count == u64::MAX {
                self.count
            } else {
                (self.count + 1) as u64
            },
            status: self.status,
        }
    }

    fn serve(&mut self, ctx: Context<St>, req: RequestModel) -> (r: Result<
        Response,
        PipelineError,
    >) {
        if self.count < u64::MAX {
            self.count = self.count + 1;
        }
        let r = Ok(Response::new(self.status, Vec::new()));
        proof {
            assert(outcome_view(r) matches Ok((s, b)) && b =~= Seq::<u8>::empty());
        }
        r
    }
}

/// A service that fails every request with the same error.
pub struct FailingService {
    pub error: PipelineError,
}

impl<St> Service<St> for FailingService {
    open spec fn spec_outcome(&self, ctx: Context<St>, req: RequestModel) -> Result<
        (u16, Seq<u8>),
        PipelineError,
    > {
        Err(self.error)
    }

    open spec fn spec_next(&self, ctx: Context<St>, req: RequestModel) -> Self {
        *self
    }

    fn serve(&mut self, ctx: Context<St>, req: RequestModel) -> (r: Result<
        Response,
        PipelineError,
    >) {
        Err(self.error)
    }
}

/// Middleware that resolves every error of its inner service into a
/// response with the configured status, so that errors never propagate
/// past it.
pub struct ConsumeErrService<S> {
    pub inner: S,
    pub error_status: u16,
}

impl<St, S: Service<St>> Service<St> for ConsumeErrService<S> {
    open spec fn spec_outcome(&self, ctx: Context<St>, req: RequestModel) -> Result<
        (u16, Seq<u8>),
        PipelineError,
    > {
        match self.inner.spec_outcome(ctx, req) {
            Ok(out) => Ok(out),
            Err(_) => Ok((self.error_status, Seq::empty())),
        }
    }

    open spec fn spec_next(&self, ctx: Context<St>, req: RequestModel) -> Self {
        ConsumeErrService { inner: self.inner.spec_next(ctx, req), error_status: self.error_status }
    }

    fn serve(&mut self, ctx: Context<St>, req: RequestModel) -> (r: Result<
        Response,
        PipelineError,
    >) {
        match self.inner.serve(ctx, req) {
            Ok(resp) => Ok(resp),
            Err(_) => {
                let r = Ok(Response::new(self.error_status, Vec::new()));
                proof {
                    assert(outcome_view(r) matches Ok((s, b)) && b =~= Seq::<u8>::empty());
                }
                r
            },
        }
    }
}

/// A matcher-gated bypass: when the matcher matches, the request is
/// dispatched entirely to the alternate service and the inner service is
/// not consulted at all; otherwise the inner service is consulted exactly
/// once and the alternate is untouched.
pub struct HijackService<S, A> {
    pub matcher: Matcher,
    pub inner: S,
    pub alternate: A,
}

impl<St, S: Service<St>, A: Service<St>> Service<St> for HijackService<S, A> {
    open spec fn spec_outcome(&self, ctx: Context<St>, req: RequestModel) -> Result<
        (u16, Seq<u8>),
        PipelineError,
    > {
        if self.matcher.spec_eval(req) {
            self.alternate.spec_outcome(ctx, req)
        } else {
            self.inner.spec_outcome(ctx, req)
        }
    }

    open spec fn spec_next(&self, ctx: Context<St>, req: RequestModel) -> Self {
        if self.matcher.spec_eval(req) {
            HijackService {
                matcher: self.matcher,
                inner: self.inner,
                alternate: self.alternate.spec_next(ctx, req),
            }
        } else {
            HijackService {
                matcher: self.matcher,
                inner: self.inner.spec_next(ctx, req),
                alternate: self.alternate,
            }
        }
    }

    fn serve(&mut self, ctx: Context<St>, req: RequestModel) -> (r: Result<
        Response,
        PipelineError,
    >) {
        if self.matcher.matches(&req) {
            self.alternate.serve(ctx, req)
        } else {
            self.inner.serve(ctx, req)
        }
    }
}

/// A layer that wraps an inner service with a [`HijackService`]: the
/// matcher-gated bypass to an alternate service.
pub struct HijackLayer<A> {
    pub matcher: Matcher,
    pub alternate: A,
}

impl<A> HijackLayer<A> {
    /// Build the layer from its matcher and the alternate service.
    pub fn new(matcher: Matcher, alternate: A) -> (r: HijackLayer<A>)
        ensures
            r.matcher == matcher,
            r.alternate == alternate,
    {
        HijackLayer { matcher, alternate }
    }

    /// Wrap an inner service: requests the matcher accepts bypass it and
    /// go to the alternate service instead.
    pub fn layer<S>(self, inner: S) -> (r: HijackService<S, A>)
        ensures
            r.matcher == self.matcher,
            r.alternate == self.alternate,
            r.inner == inner,
    {
        HijackService { matcher: self.matcher, inner, alternate: self.alternate }
    }
}

/// Hijack dispatch: when the matcher matches, the alternate's outcome is
/// the whole outcome and the inner service's state — an invocation count
/// included — is exactly what it was; when it does not match, the inner
/// service steps exactly once and the alternate's state is exactly what it
/// was.
pub proof fn lemma_hijack_dispatch<St, S: Service<St>, A: Service<St>>(
    h: HijackService<S, A>,
    ctx: Context<St>,
    req: RequestModel,
)
    ensures
        h.matcher.spec_eval(req) ==> {
            &&& h.spec_outcome(ctx, req) == h.alternate.spec_outcome(ctx, req)
            &&& h.spec_next(ctx, req).inner == h.inner
            &&& h.spec_next(ctx, req).alternate == h.alternate.spec_next(ctx, req)
        },
        !h.matcher.spec_eval(req) ==> {
            &&& h.spec_outcome(ctx, req) == h.inner.spec_outcome(ctx, req)
            &&& h.spec_next(ctx, req).alternate == h.alternate
            &&& h.spec_next(ctx, req).inner == h.inner.spec_next(ctx, req)
        },
        h.spec_next(ctx, req).matcher == h.matcher,
{
}

/// Hijack dispatch, counted: with counting services on both sides, a
/// matching request leaves the inner count at exactly its old value and
/// raises the alternate count by one, and a non-matching request does the
/// opposite.
pub proof fn lemma_hijack_invocation_counts<St>(
    h: HijackService<CountingService, CountingService>,
    ctx: Context<St>,
    req: RequestModel,
)
    requires
        h.inner.count < u64::MAX,
        h.alternate.count < u64::MAX,
    ensures
        h.matcher.spec_eval(req) ==> {
            &&& Service::<St>::spec_next(&h, ctx, req).inner.count == h.inner.count
            &&& Service::<St>::spec_next(&h, ctx, req).alternate.count == h.alternate.count + 1
        },
        !h.matcher.spec_eval(req) ==> {
            &&& Service::<St>::spec_next(&h, ctx, req).inner.count == h.inner.count + 1
            &&& Service::<St>::spec_next(&h, ctx, req).alternate.count == h.alternate.count
        },
{
}

} // verus!
