use vstd::prelude::*;
use crate::carrier::Carrier;
use crate::context::TraceContext;
use crate::propagation::{
    extract, extracted, flags_of, inject, injected, remote_context, traceparent_key, traceparent_text,
};
use opentelemetry_sdk::trace::{IdGenerator, RandomIdGenerator};

verus! {

/// Relies on `RandomIdGenerator::new_trace_id` of opentelemetry_sdk: a random
/// 128-bit trace id. Nothing is promised of its value.
#[verifier::external_body]
fn random_trace_id() -> (r: u128) {
    u128::from_be_bytes(RandomIdGenerator::default().new_trace_id().to_bytes())
}

/// Relies on `RandomIdGenerator::new_span_id` of opentelemetry_sdk: a random
/// 64-bit span id. Nothing is promised of its value.
#[verifier::external_body]
fn random_span_id() -> (r: u64) {
    u64::from_be_bytes(RandomIdGenerator::default().new_span_id().to_bytes())
}

/// The span that starts under `parent` with the fresh ids given: a child of a
/// remote parent keeps its trace id and sampled bit; any other span is a root
/// of a new trace.
pub open spec fn derived_span(parent: Option<TraceContext>, trace_id: u128, span_id: u64) -> TraceContext {
    match parent {
        Some(p) if p.has_remote_parent => TraceContext {
            trace_id: p.trace_id,
            span_id,
            parent_span_id: Some(p.span_id),
            has_remote_parent: false,
            sampled: p.sampled,
        },
        _ => TraceContext {
            trace_id,
            span_id,
            parent_span_id: None,
            has_remote_parent: false,
            sampled: true,
        },
    }
}

/// A span that has started and not yet ended.
pub struct ActiveSpan {
    pub name: String,
    pub context: TraceContext,
}

/// The span that starts under `parent`, given the fresh ids it is to take
/// (the trace id is used only for a root).
pub fn span_with_ids(name: String, parent: Option<TraceContext>, trace_id: u128, span_id: u64) -> (r: ActiveSpan)
    ensures
        r.name == name,
        r.context == derived_span(parent, trace_id, span_id),
{
    let context = match parent {
        Some(p) if p.has_remote_parent => TraceContext {
            trace_id: p.trace_id,
            span_id,
            parent_span_id: Some(p.span_id),
            has_remote_parent: false,
            sampled: p.sampled,
        },
        _ => TraceContext {
            trace_id,
            span_id,
            parent_span_id: None,
            has_remote_parent: false,
            sampled: true,
        },
    };
    ActiveSpan { name, context }
}

/// The span id of a remote parent that `parent` names, or zero.
pub open spec fn parent_span_of(parent: Option<TraceContext>) -> u64 {
    match parent {
        Some(p) if p.has_remote_parent => p.span_id,
        _ => 0,
    }
}

/// `draw`, unless it is zero or `avoid`; then the smallest id that is
/// neither.
fn span_id_other_than(draw: u64, avoid: u64) -> (r: u64)
    ensures
        r != 0,
        r != avoid,
        draw != 0 && draw != avoid ==> r == draw,
{
    if draw != 0 && draw != avoid {
        draw
    } else if avoid != 1 {
        1
    } else {
        2
    }
}

/// Starts a span under `parent` with freshly generated ids: a child of a
/// remote parent continues its trace, any other span begins a new one. A
/// zero draw is replaced, so a new trace id is never zero, and the span id is
/// neither zero nor the parent's.
pub fn start_span(name: String, parent: Option<TraceContext>) -> (r: ActiveSpan)
    ensures
        r.name == name,
        exists|t: u128, s: u64| t != 0 && r.context == derived_span(parent, t, s),
        r.context.span_id != 0,
        r.context.span_id != parent_span_of(parent),
        (match parent {
            Some(p) if p.has_remote_parent => p.trace_id != 0,
            _ => true,
        }) ==> r.context.is_valid(),
{
    let drawn_trace = random_trace_id();
    let trace_id: u128 = if drawn_trace == 0 { 1 } else { drawn_trace };
    let avoid: u64 = match parent {
        Some(p) if p.has_remote_parent => p.span_id,
        _ => 0,
    };
    let span_id = span_id_other_than(random_span_id(), avoid);
    span_with_ids(name, parent, trace_id, span_id)
}

/// The ambient context of one logical unit of work. Each unit holds its own
/// scope, so concurrent units never see each other's context.
pub struct Scope {
    current: Option<TraceContext>,
}

impl Scope {
    pub closed spec fn ambient(&self) -> Option<TraceContext> {
        self.current
    }

    pub fn new() -> (r: Scope)
        ensures
            r.ambient().is_none(),
    {
        Scope { current: None }
    }

    /// A scope whose ambient context is `ctx`.
    pub fn with_context(ctx: Option<TraceContext>) -> (r: Scope)
        ensures
            r.ambient() == ctx,
    {
        Scope { current: ctx }
    }

    pub fn current(&self) -> (r: Option<TraceContext>)
        ensures
            r == self.ambient(),
    {
        self.current
    }

    /// Makes the span's context ambient and hands back the context it
    /// replaced, which `leave` restores.
    pub fn enter(&mut self, span: &ActiveSpan) -> (prior: Option<TraceContext>)
        ensures
            final(self).ambient() == Some(span.context),
            prior == old(self).ambient(),
    {
        let prior = self.current;
        self.current = Some(span.context);
        prior
    }

    /// Restores the context that `enter` replaced.
    pub fn leave(&mut self, prior: Option<TraceContext>)
        ensures
            final(self).ambient() == prior,
    {
        self.current = prior;
    }
}

/// Name of the span that an inbound call (or a scheduled run) runs in.
pub open spec fn inbound_span_name_spec() -> Seq<char> {
    seq!['h', 't', 't', 'p', ' ', 'm', 'i', 'd', 'd', 'l', 'e', 'w', 'a', 'r', 'e']
}

/// Name of the span that an inbound call (or a scheduled run) runs in.
pub fn inbound_span_name() -> (r: String)
    ensures
        r@ == inbound_span_name_spec(),
{
    let r = String::from_str("http middleware");
    proof {
        reveal_strlit("http middleware");
    }
    assert(r@ =~= inbound_span_name_spec());
    r
}

/// Name of the span that a consumed queue message runs in.
pub fn consumer_span_name() -> (r: String)
    ensures
        r@ == seq!['q', 'u', 'e', 'u', 'e', ' ', 'c', 'o', 'n', 's', 'u', 'm', 'e', 'r'],
{
    let r = String::from_str("queue consumer");
    proof {
        reveal_strlit("queue consumer");
    }
    assert(r@ =~= seq!['q', 'u', 'e', 'u', 'e', ' ', 'c', 'o', 'n', 's', 'u', 'm', 'e', 'r']);
    r
}

/// The span that an inbound call runs in, given the fresh ids: a child of the
/// context that the request carries, or a new root where it carries none.
pub fn inbound_span_with_ids(request: &Carrier, trace_id: u128, span_id: u64) -> (r: ActiveSpan)
    requires
        request.wf(),
    ensures
        r.context == derived_span(extracted(request@), trace_id, span_id),
        r.name@ == inbound_span_name_spec(),
{
    let parent = extract(request);
    span_with_ids(inbound_span_name(), parent, trace_id, span_id)
}

/// Starts the span that an inbound call runs in: it continues the trace that
/// the request carries, or starts a new one.
pub fn inbound_span(request: &Carrier) -> (r: ActiveSpan)
    requires
        request.wf(),
    ensures
        r.name@ == inbound_span_name_spec(),
        exists|t: u128, s: u64| r.context == derived_span(extracted(request@), t, s),
        extracted(request@) matches Some(x) ==> r.context.trace_id == x.trace_id
            && r.context.parent_span_id == Some(x.span_id) && r.context.sampled == x.sampled,
        extracted(request@) matches Some(x) ==> r.context.span_id != x.span_id,
        forall|t: u128, s: u64, f: u8|
            request.lookup(traceparent_key()) == Some(#[trigger] traceparent_text(t, s, f)) ==> extracted(
                request@,
            ) == (if t != 0 && s != 0 && f <= 2 {
                Some(remote_context(t, s, if f == 1 { 1u8 } else { 0u8 }))
            } else {
                None
            }),
        extracted(request@).is_none() ==> r.context.parent_span_id.is_none(),
        r.context.is_valid(),
{
    let parent = extract(request);
    start_span(inbound_span_name(), parent)
}

/// Echoes the context that served an inbound call into its response, so
/// that the caller can correlate.
pub fn respond(span: &ActiveSpan, response: &mut Carrier)
    requires
        old(response).wf(),
    ensures
        final(response).wf(),
        final(response)@ == injected(span.context, old(response)@),
        span.context.is_valid() ==> final(response).lookup(traceparent_key()) == Some(
            traceparent_text(span.context.trace_id, span.context.span_id, flags_of(span.context.sampled)),
        ),
{
    inject(&span.context, response);
}

/// Starts the span that a background task (a consumed message, a scheduled
/// run) runs in: always the root of a new trace.
pub fn background_span(name: String) -> (r: ActiveSpan)
    ensures
        r.name == name,
        r.context.parent_span_id.is_none(),
        !r.context.has_remote_parent,
        r.context.sampled,
        r.context.is_valid(),
{
    start_span(name, None)
}

/// Outbound-call middleware: writes the ambient context into each outgoing
/// request. It starts no span of its own.
pub struct ReqwestTraceMiddleware();

impl ReqwestTraceMiddleware {
    /// Writes the ambient context, if any, into the outgoing request's
    /// carrier; with no ambient context the carrier is left untouched.
    pub fn prepare(&self, ambient: Option<TraceContext>, request: &mut Carrier)
        requires
            old(request).wf(),
        ensures
            final(request).wf(),
            final(request)@ == match ambient {
                Some(ctx) => injected(ctx, old(request)@),
                None => old(request)@,
            },
    {
        match ambient {
            Some(ctx) => inject(&ctx, request),
            None => {},
        }
    }
}

} // verus!
