use vstd::prelude::*;
use crate::registry::UpstreamRegistry;
use pingora_http::RequestHeader;
use crate::request::{MAX_HEADER_NAMES, header_names, header_value_ok};
use crate::rewrite::{ForwardingDecision, RewriteError, host_bytes, host_rewritten, rewrite};
use crate::selector::{SelectionCursor, SelectionError, advance, healthy_upstreams};

verus! {

/// Where one inbound request stands.
#[derive(Clone, Copy, Debug, PartialEq, Eq, Structural)]
pub enum RequestPhase {
    Start,
    Selecting,
    Selected,
    SelectionFailed,
    Rewriting,
    Rewritten,
    RewriteFailed,
    Forwarded,
}

/// What happened to the request last.
#[derive(Clone, Copy, Debug, PartialEq, Eq, Structural)]
pub enum RequestEvent {
    Received,
    UpstreamChosen,
    NoHealthyUpstream,
    RewriteBegun,
    HeaderAccepted,
    HeaderRejected,
    DispatchAccepted,
}

/// The per-request transitions; every other pair is not a transition.
pub open spec fn transition(p: RequestPhase, e: RequestEvent) -> Option<RequestPhase> {
    match (p, e) {
        (RequestPhase::Start, RequestEvent::Received) => Some(RequestPhase::Selecting),
        (RequestPhase::Selecting, RequestEvent::UpstreamChosen) => Some(RequestPhase::Selected),
        (RequestPhase::Selecting, RequestEvent::NoHealthyUpstream) => Some(RequestPhase::SelectionFailed),
        (RequestPhase::Selected, RequestEvent::RewriteBegun) => Some(RequestPhase::Rewriting),
        (RequestPhase::Rewriting, RequestEvent::HeaderAccepted) => Some(RequestPhase::Rewritten),
        (RequestPhase::Rewriting, RequestEvent::HeaderRejected) => Some(RequestPhase::RewriteFailed),
        (RequestPhase::Rewritten, RequestEvent::DispatchAccepted) => Some(RequestPhase::Forwarded),
        _ => None,
    }
}

/// A phase from which no transition leaves.
pub open spec fn terminal(p: RequestPhase) -> bool {
    p == RequestPhase::SelectionFailed || p == RequestPhase::RewriteFailed || p == RequestPhase::Forwarded
}

/// The next phase of a request, or `None` where `event` cannot happen in `phase`.
pub fn next_phase(phase: RequestPhase, event: RequestEvent) -> (r: Option<RequestPhase>)
    ensures
        r == transition(phase, event),
        terminal(phase) ==> r is None,
{
    match (phase, event) {
        (RequestPhase::Start, RequestEvent::Received) => Some(RequestPhase::Selecting),
        (RequestPhase::Selecting, RequestEvent::UpstreamChosen) => Some(RequestPhase::Selected),
        (RequestPhase::Selecting, RequestEvent::NoHealthyUpstream) => Some(RequestPhase::SelectionFailed),
        (RequestPhase::Selected, RequestEvent::RewriteBegun) => Some(RequestPhase::Rewriting),
        (RequestPhase::Rewriting, RequestEvent::HeaderAccepted) => Some(RequestPhase::Rewritten),
        (RequestPhase::Rewriting, RequestEvent::HeaderRejected) => Some(RequestPhase::RewriteFailed),
        (RequestPhase::Rewritten, RequestEvent::DispatchAccepted) => Some(RequestPhase::Forwarded),
        _ => None,
    }
}

/// How a failed request is classified for the client.
#[derive(Clone, Copy, Debug, PartialEq, Eq, Structural)]
pub enum ProxyError {
    /// No healthy upstream: service unavailable.
    Unavailable,
    /// The host header was refused: internal error.
    Internal,
}

impl ProxyError {
    /// The HTTP status the client receives.
    pub fn status_code(&self) -> (r: u16)
        ensures
            *self == ProxyError::Unavailable ==> r == 503,
            *self == ProxyError::Internal ==> r == 500,
    {
        match self {
            ProxyError::Unavailable => 503,
            ProxyError::Internal => 500,
        }
    }
}

/// Chooses the upstream for one inbound request. `session` is accepted for
/// strategies that read the request; round-robin ignores it. The registry is
/// only read: a snapshot is taken, then the cursor advances over its Healthy
/// entries.
pub fn select_upstream_for<S>(
    session: &S,
    registry: &UpstreamRegistry,
    cursor: &mut SelectionCursor,
    virtual_host: &String,
) -> (r: Result<ForwardingDecision, ProxyError>)
    ensures
        healthy_upstreams(registry@).len() == 0 ==> r == Err::<ForwardingDecision, ProxyError>(
            ProxyError::Unavailable,
        ) && final(cursor)@ == old(cursor)@,
        healthy_upstreams(registry@).len() > 0 ==> {
            let h = healthy_upstreams(registry@);
            &&& r == Ok::<ForwardingDecision, ProxyError>(
                ForwardingDecision {
                    upstream: h[(old(cursor)@ % h.len()) as int],
                    virtual_host: *virtual_host,
                },
            )
            &&& final(cursor)@ == advance(old(cursor)@, h.len())
        },
{
    let snap = registry.snapshot();
    match cursor.select(&snap) {
        Ok(upstream) => Ok(ForwardingDecision { upstream, virtual_host: virtual_host.clone() }),
        Err(SelectionError::NoHealthyUpstream) => Err(ProxyError::Unavailable),
    }
}

/// Rewrites the outbound `request` for `decision`. Only the request is
/// touched, never the registry or the cursor, so a refusal fails this request
/// alone and is reported as an internal error.
pub fn rewrite_outbound(request: &mut RequestHeader, decision: &ForwardingDecision) -> (r: Result<
    (),
    ProxyError,
>)
    ensures
        r is Ok <==> header_value_ok(host_bytes(*decision)) && header_names(*old(request)).len()
            < MAX_HEADER_NAMES,
        r is Ok ==> host_rewritten(*old(request), *final(request), host_bytes(*decision)),
        r is Err ==> r == Err::<(), ProxyError>(ProxyError::Internal) && *final(request) == *old(
            request,
        ),
{
    match rewrite(request, decision) {
        Ok(()) => Ok(()),
        Err(RewriteError::HeaderRejected) => Err(ProxyError::Internal),
    }
}

} // verus!
