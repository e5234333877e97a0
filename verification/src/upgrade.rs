//! The protocol-upgrade state machine and the tunnel it ends in: a matched
//! request is offered to an accept step; rejection keeps the connection in
//! ordinary request/response service, acceptance detaches the transport
//! from the protocol machinery and hands it to a raw duplex byte tunnel
//! that relays bytes unmodified until either side closes.

use vstd::prelude::*;
use crate::context::{clone_bytes, Context};
use crate::http::{method_is, Method, RequestModel, Response};
use crate::matcher::Matcher;

verus! {

/// The states of one connection's protocol-upgrade lifecycle.
#[derive(Debug, PartialEq, Eq, Structural, Clone, Copy)]
pub enum UpgradeState {
    /// Ordinary structured request/response service.
    Normal,
    /// A matched request is being offered to the accept step.
    Accepting,
    /// The accept step rejected: the connection continues as ordinary
    /// structured service.
    Rejected,
    /// The accept step produced a success response: the switch is owed.
    Accepted,
    /// The transport is being detached from the protocol machinery.
    Upgrading,
    /// The raw duplex tunnel is relaying bytes.
    Tunneling,
    /// The connection is finished.
    Closed,
}

/// The events that drive the upgrade lifecycle.
#[derive(Debug, PartialEq, Eq, Structural, Clone, Copy)]
pub enum UpgradeEvent {
    /// The upgrade matcher classified the current request: matched or not.
    RequestMatched(bool),
    /// The accept step decided: accepted or rejected.
    AcceptDecided(bool),
    /// The transport was detached from the protocol machinery.
    TransportDetached,
    /// The tunnel's outbound connection is established and relaying.
    TunnelEstablished,
    /// The tunnel ended: a peer closed or an error tore it down.
    TunnelEnded,
    /// The connection ended outside a tunnel.
    ConnectionEnded,
}

/// The transition relation of the upgrade lifecycle. Events that cannot
/// occur in a state leave the state unchanged.
pub open spec fn spec_upgrade_step(s: UpgradeState, e: UpgradeEvent) -> UpgradeState {
    match (s, e) {
        (UpgradeState::Normal, UpgradeEvent::RequestMatched(true)) => UpgradeState::Accepting,
        (UpgradeState::Normal, UpgradeEvent::RequestMatched(false)) => UpgradeState::Normal,
        (UpgradeState::Normal, UpgradeEvent::ConnectionEnded) => UpgradeState::Closed,
        (UpgradeState::Accepting, UpgradeEvent::AcceptDecided(true)) => UpgradeState::Accepted,
        (UpgradeState::Accepting, UpgradeEvent::AcceptDecided(false)) => UpgradeState::Rejected,
        (UpgradeState::Rejected, UpgradeEvent::RequestMatched(true)) => UpgradeState::Accepting,
        (UpgradeState::Rejected, UpgradeEvent::RequestMatched(false)) => UpgradeState::Normal,
        (UpgradeState::Rejected, UpgradeEvent::ConnectionEnded) => UpgradeState::Closed,
        (UpgradeState::Accepted, UpgradeEvent::TransportDetached) => UpgradeState::Upgrading,
        (UpgradeState::Upgrading, UpgradeEvent::TunnelEstablished) => UpgradeState::Tunneling,
        (UpgradeState::Upgrading, UpgradeEvent::TunnelEnded) => UpgradeState::Closed,
        (UpgradeState::Tunneling, UpgradeEvent::TunnelEnded) => UpgradeState::Closed,
        (_, _) => s,
    }
}

/// Step the upgrade lifecycle by one event.
pub fn upgrade_step(s: UpgradeState, e: UpgradeEvent) -> (r: UpgradeState)
    ensures
        r == spec_upgrade_step(s, e),
{
    match (s, e) {
        (UpgradeState::Normal, UpgradeEvent::RequestMatched(true)) => UpgradeState::Accepting,
        (UpgradeState::Normal, UpgradeEvent::RequestMatched(false)) => UpgradeState::Normal,
        (UpgradeState::Normal, UpgradeEvent::ConnectionEnded) => UpgradeState::Closed,
        (UpgradeState::Accepting, UpgradeEvent::AcceptDecided(true)) => UpgradeState::Accepted,
        (UpgradeState::Accepting, UpgradeEvent::AcceptDecided(false)) => UpgradeState::Rejected,
        (UpgradeState::Rejected, UpgradeEvent::RequestMatched(true)) => UpgradeState::Accepting,
        (UpgradeState::Rejected, UpgradeEvent::RequestMatched(false)) => UpgradeState::Normal,
        (UpgradeState::Rejected, UpgradeEvent::ConnectionEnded) => UpgradeState::Closed,
        (UpgradeState::Accepted, UpgradeEvent::TransportDetached) => UpgradeState::Upgrading,
        (UpgradeState::Upgrading, UpgradeEvent::TunnelEstablished) => UpgradeState::Tunneling,
        (UpgradeState::Upgrading, UpgradeEvent::TunnelEnded) => UpgradeState::Closed,
        (UpgradeState::Tunneling, UpgradeEvent::TunnelEnded) => UpgradeState::Closed,
        (other, _) => other,
    }
}

/// A rejected upgrade never leaves structured service: from the rejected
/// state the connection goes on handling ordinary requests — only a fresh
/// match can start a new upgrade attempt, and the tunnel states are
/// unreachable without one.
pub proof fn lemma_rejection_keeps_ordinary_service(e: UpgradeEvent)
    ensures
        spec_upgrade_step(UpgradeState::Rejected, e) != UpgradeState::Tunneling,
        spec_upgrade_step(UpgradeState::Rejected, e) != UpgradeState::Upgrading,
        spec_upgrade_step(UpgradeState::Rejected, e) != UpgradeState::Accepted,
        e == UpgradeEvent::RequestMatched(false) ==> spec_upgrade_step(UpgradeState::Rejected, e)
            == UpgradeState::Normal,
{
}

/// The closed state is final.
pub proof fn lemma_closed_is_final(e: UpgradeEvent)
    ensures
        spec_upgrade_step(UpgradeState::Closed, e) == UpgradeState::Closed,
{
}

/// The accept step: a request asking for a protocol switch is accepted
/// exactly when it is a CONNECT with a resolvable target host; the host is
/// then recorded in the context for the tunnel to dial, and a success
/// response is produced. Any other request is rejected with an error
/// response and the context is left untouched.
pub fn accept_connect<St>(ctx: &mut Context<St>, req: &RequestModel) -> (r: Result<
    Response,
    Response,
>)
    ensures
        req.host matches Some(h) ==> method_is(req.method, Method::Connect) ==> ({
            &&& r matches Ok(resp) && resp.spec_is_success() && resp.status == 200
            &&& final(ctx).extensions.spec_target_host() matches Some(t) && t@ == h@
            &&& final(ctx).extensions.spec_info() == old(ctx).extensions.spec_info()
            &&& final(ctx).extensions.spec_client_config() == old(
                ctx,
            ).extensions.spec_client_config()
            &&& final(ctx).spec_state() == old(ctx).spec_state()
        }),
        !(method_is(req.method, Method::Connect) && req.host is Some) ==> ({
            &&& r matches Err(resp) && !resp.spec_is_success() && resp.status == 400
            &&& *final(ctx) == *old(ctx)
        }),
{
    let is_connect = match &req.method {
        Method::Connect => true,
        _ => false,
    };
    if is_connect {
        match &req.host {
            Some(h) => {
                let target = clone_bytes(h);
                ctx.extensions.insert_target_host(target);
                return Ok(Response::new(200, Vec::new()));
            },
            None => {},
        }
    }
    Err(Response::new(400, Vec::new()))
}

/// The matcher-guarded entry to the protocol switch: in a serving state it
/// classifies the request, offers a matched one to the accept step, and
/// reports the next lifecycle state together with the accept step's
/// response.
pub struct UpgradeLayer {
    pub matcher: Matcher,
}

impl UpgradeLayer {
    /// Build the guard from its matcher, typically one that accepts the
    /// CONNECT method.
    pub fn new(matcher: Matcher) -> (r: UpgradeLayer)
        ensures
            r.matcher == matcher,
    {
        UpgradeLayer { matcher }
    }

    /// Offer one request to the guard. A request the matcher does not
    /// accept leaves the lifecycle in ordinary service and the context
    /// untouched; a matched one goes to the accept step, whose response is
    /// handed back, successful exactly when the switch was accepted.
    pub fn offer<St>(&self, state: UpgradeState, ctx: &mut Context<St>, req: &RequestModel) -> (r:
        (UpgradeState, Option<Response>))
        ensures
            ({
                let matched = self.matcher.spec_eval(*req);
                let offered = spec_upgrade_step(state, UpgradeEvent::RequestMatched(matched));
                &&& offered != UpgradeState::Accepting ==> r.0 == offered && r.1 is None
                    && *final(ctx) == *old(ctx)
                &&& offered == UpgradeState::Accepting ==> ({
                    let accepted = method_is(req.method, Method::Connect) && req.host is Some;
                    &&& r.0 == spec_upgrade_step(
                        UpgradeState::Accepting,
                        UpgradeEvent::AcceptDecided(accepted),
                    )
                    &&& r.1 matches Some(resp) && (accepted <==> resp.spec_is_success())
                    &&& accepted ==> (req.host matches Some(h)
                        ==> final(ctx).extensions.spec_target_host() matches Some(t) && t@ == h@)
                    &&& !accepted ==> *final(ctx) == *old(ctx)
                })
            }),
    {
        let matched = self.matcher.matches(req);
        let offered = upgrade_step(state, UpgradeEvent::RequestMatched(matched));
        match offered {
            UpgradeState::Accepting => match accept_connect(ctx, req) {
                Ok(resp) => (
                    upgrade_step(UpgradeState::Accepting, UpgradeEvent::AcceptDecided(true)),
                    Some(resp),
                ),
                Err(resp) => (
                    upgrade_step(UpgradeState::Accepting, UpgradeEvent::AcceptDecided(false)),
                    Some(resp),
                ),
            },
            other => (other, None),
        }
    }
}

/// The raw duplex tunnel after a successful upgrade: two directed byte
/// channels, client-to-server and server-to-client. Writing appends to a
/// channel; reading drains it. Bytes travel unmodified and in order.
pub struct Tunnel {
    client_to_server: Vec<u8>,
    server_to_client: Vec<u8>,
}

/// Append every byte of a slice to a vector, in order.
fn push_all(dst: &mut Vec<u8>, src: &[u8])
    ensures
        final(dst)@ == old(dst)@ + src@,
{
    let n = src.len();
    let mut i: usize = 0;
    while i < n
        invariant
            i <= n,
            n == src@.len(),
            dst@ == old(dst)@ + src@.subrange(0, i as int),
        decreases n - i,
    {
        dst.push(src[i]);
        proof {
            assert(old(dst)@ + src@.subrange(0, i + 1) =~= (old(dst)@ + src@.subrange(
                0,
                i as int,
            )).push(src@[i as int]));
        }
        i += 1;
    }
    proof {
        assert(src@.subrange(0, n as int) =~= src@);
    }
}

impl Tunnel {
    /// The bytes currently in flight from client to server.
    pub closed spec fn spec_pending_to_server(&self) -> Seq<u8> {
        self.client_to_server@
    }

    /// The bytes currently in flight from server to client.
    pub closed spec fn spec_pending_to_client(&self) -> Seq<u8> {
        self.server_to_client@
    }

    /// A fresh tunnel with nothing in flight.
    pub fn new() -> (r: Tunnel)
        ensures
            r.spec_pending_to_server() == Seq::<u8>::empty(),
            r.spec_pending_to_client() == Seq::<u8>::empty(),
    {
        Tunnel { client_to_server: Vec::new(), server_to_client: Vec::new() }
    }

    /// The client side writes bytes into the tunnel: they are appended,
    /// unmodified and in order, to what is in flight towards the server.
    pub fn write_from_client(&mut self, data: &[u8])
        ensures
            final(self).spec_pending_to_server() == old(self).spec_pending_to_server() + data@,
            final(self).spec_pending_to_client() == old(self).spec_pending_to_client(),
    {
        push_all(&mut self.client_to_server, data);
    }

    /// The server side writes bytes into the tunnel: they are appended,
    /// unmodified and in order, to what is in flight towards the client.
    pub fn write_from_server(&mut self, data: &[u8])
        ensures
            final(self).spec_pending_to_client() == old(self).spec_pending_to_client() + data@,
            final(self).spec_pending_to_server() == old(self).spec_pending_to_server(),
    {
        push_all(&mut self.server_to_client, data);
    }

    /// The server side reads: it receives exactly the bytes the client
    /// side wrote, unmodified and in order, and the channel drains.
    pub fn read_at_server(&mut self) -> (r: Vec<u8>)
        ensures
            r@ == old(self).spec_pending_to_server(),
            final(self).spec_pending_to_server() == Seq::<u8>::empty(),
            final(self).spec_pending_to_client() == old(self).spec_pending_to_client(),
    {
        let mut out: Vec<u8> = Vec::new();
        std::mem::swap(&mut out, &mut self.client_to_server);
        out
    }

    /// The client side reads: it receives exactly the bytes the server
    /// side wrote, unmodified and in order, and the channel drains.
    pub fn read_at_client(&mut self) -> (r: Vec<u8>)
        ensures
            r@ == old(self).spec_pending_to_client(),
            final(self).spec_pending_to_client() == Seq::<u8>::empty(),
            final(self).spec_pending_to_server() == old(self).spec_pending_to_server(),
    {
        let mut out: Vec<u8> = Vec::new();
        std::mem::swap(&mut out, &mut self.server_to_client);
        out
    }
}

/// How a tunnel's underlying transport ended.
#[derive(Debug, PartialEq, Eq, Structural, Clone, Copy)]
pub enum TunnelEnd {
    /// A side reached the end of its stream.
    Eof,
    /// The peer reset the connection.
    PeerReset,
    /// The peer's side of the pipe was gone while writing.
    PipeBroken,
    /// Any other transport failure.
    Fault,
}

/// Whether a tunnel ending counts as ordinary closure: end-of-stream and
/// peer-initiated termination are normal; everything else is a failure
/// that tears the tunnel down.
pub open spec fn spec_normal_closure(e: TunnelEnd) -> bool {
    match e {
        TunnelEnd::Eof => true,
        TunnelEnd::PeerReset => true,
        TunnelEnd::PipeBroken => true,
        TunnelEnd::Fault => false,
    }
}

/// Classify a tunnel ending: ordinary closure or a failure.
pub fn is_normal_closure(e: TunnelEnd) -> (r: bool)
    ensures
        r == spec_normal_closure(e),
{
    match e {
        TunnelEnd::Eof => true,
        TunnelEnd::PeerReset => true,
        TunnelEnd::PipeBroken => true,
        TunnelEnd::Fault => false,
    }
}

} // verus!
