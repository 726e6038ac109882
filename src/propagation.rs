use vstd::prelude::*;
use crate::carrier::Carrier;
use crate::context::{hex_text, TraceContext};
use crate::entries::upsert;
use opentelemetry::propagation::TextMapPropagator;
use opentelemetry::trace::{SpanContext, SpanId, TraceContextExt, TraceFlags, TraceId, TraceState};
use opentelemetry_sdk::propagation::TraceContextPropagator;
use std::collections::HashMap;

verus! {

/// What opentelemetry's W3C propagator reads from a `traceparent` value:
/// trace id, span id and sampled bit, or nothing where it refuses the value.
pub uninterp spec fn traceparent_fields(value: Seq<char>) -> Option<(u128, u64, u8)>;

/// The carrier key that holds the encoded context.
pub open spec fn traceparent_key() -> Seq<char> {
    seq!['t', 'r', 'a', 'c', 'e', 'p', 'a', 'r', 'e', 'n', 't']
}

/// The canonical encoding: version `00`, then the trace id, the span id and
/// the flags in lower-case hexadecimal, joined by `-`.
pub open spec fn traceparent_text(trace_id: u128, span_id: u64, flags: u8) -> Seq<char> {
    seq!['0', '0', '-'] + hex_text(trace_id as nat, 32) + seq!['-'] + hex_text(span_id as nat, 16)
        + seq!['-'] + hex_text(flags as nat, 2)
}

pub open spec fn flags_of(sampled: bool) -> u8 {
    if sampled {
        1
    } else {
        0
    }
}

/// The context that a carrier value names: a remote span with no known parent.
pub open spec fn remote_context(trace_id: u128, span_id: u64, flags: u8) -> TraceContext {
    TraceContext {
        trace_id,
        span_id,
        parent_span_id: None,
        has_remote_parent: true,
        sampled: flags == 1,
    }
}

/// The context that a carrier holds: none where the key is absent or its
/// value is refused.
pub open spec fn extracted(carrier: Seq<(Seq<char>, Seq<char>)>) -> Option<TraceContext> {
    match crate::entries::find(carrier, traceparent_key()) {
        None => None,
        Some(v) => match traceparent_fields(v) {
            None => None,
            Some(f) => Some(remote_context(f.0, f.1, f.2)),
        },
    }
}

/// The carrier with `ctx` written under the key; a context with a zero id
/// writes nothing.
pub open spec fn injected(ctx: TraceContext, carrier: Seq<(Seq<char>, Seq<char>)>) -> Seq<(Seq<char>, Seq<char>)> {
    if ctx.is_valid() {
        upsert(carrier, traceparent_key(), traceparent_text(ctx.trace_id, ctx.span_id, flags_of(ctx.sampled)))
    } else {
        carrier
    }
}

/// Relies on `TraceContextPropagator::extract_with_context` of opentelemetry_sdk,
/// started from an empty context and given a carrier that holds `value` under
/// `traceparent` alone. A context comes back only with non-zero ids and the
/// flags cut to the sampled bit. On a value of canonical shape, version `00`
/// with lower-case hex ids, zero ids and flags above 2 are refused and any
/// other flags are read for their sampled bit.
#[verifier::external_body]
fn parse_traceparent(value: &String) -> (r: Option<(u128, u64, u8)>)
    ensures
        r == traceparent_fields(value@),
        r.is_some() ==> r.unwrap().0 != 0 && r.unwrap().1 != 0 && r.unwrap().2 <= 1,
        forall|t: u128, s: u64, f: u8|
            value@ == #[trigger] traceparent_text(t, s, f) ==> r == (if t != 0 && s != 0 && f <= 2 {
                Some((t, s, if f == 1 { 1u8 } else { 0u8 }))
            } else {
                None
            }),
{
    let carrier = HashMap::from([("traceparent".to_string(), value.clone())]);
    let cx = TraceContextPropagator::new().extract_with_context(&opentelemetry::Context::new(), &carrier);
    let sc = cx.span().span_context().clone();
    match sc.is_valid() {
        true => Some((u128::from_be_bytes(sc.trace_id().to_bytes()), u64::from_be_bytes(sc.span_id().to_bytes()), sc.trace_flags().to_u8())),
        false => None,
    }
}

/// Relies on `TraceContextPropagator::inject_context` of opentelemetry_sdk:
/// for non-zero ids it writes `traceparent` as `00-{trace:032x}-{span:016x}-{flags:02x}`
/// with the flags cut to the sampled bit, and for a zero id it writes nothing.
#[verifier::external_body]
fn encode_traceparent(trace_id: u128, span_id: u64, sampled: bool) -> (r: Option<String>)
    ensures
        trace_id != 0 && span_id != 0 ==> r.is_some() && r.unwrap()@ == traceparent_text(trace_id, span_id, flags_of(sampled)),
        trace_id == 0 || span_id == 0 ==> r.is_none(),
{
    let sc = SpanContext::new(TraceId::from(trace_id), SpanId::from(span_id), TraceFlags::new(sampled as u8), false, TraceState::default());
    let cx = opentelemetry::Context::new().with_remote_span_context(sc);
    let mut carrier: HashMap<String, String> = HashMap::new();
    TraceContextPropagator::new().inject_context(&cx, &mut carrier);
    carrier.remove("traceparent")
}

pub fn traceparent_name() -> (r: String)
    ensures
        r@ == traceparent_key(),
{
    let r = String::from_str("traceparent");
    proof {
        reveal_strlit("traceparent");
    }
    assert(r@ =~= traceparent_key());
    r
}

/// Reads the trace context that `carrier` holds under `traceparent`. An absent
/// or malformed value gives `None`; the carrier is not changed.
pub fn extract(carrier: &Carrier) -> (r: Option<TraceContext>)
    requires
        carrier.wf(),
    ensures
        r == extracted(carrier@),
        r.is_some() ==> r.unwrap().is_valid() && r.unwrap().has_remote_parent,
        carrier.lookup(traceparent_key()).is_none() ==> r.is_none(),
        forall|t: u128, s: u64, f: u8|
            carrier.lookup(traceparent_key()) == Some(#[trigger] traceparent_text(t, s, f)) ==> r == (
            if t != 0 && s != 0 && f <= 2 {
                Some(remote_context(t, s, if f == 1 { 1u8 } else { 0u8 }))
            } else {
                None
            }),
{
    let key = traceparent_name();
    match carrier.get(&key) {
        None => None,
        Some(value) => match parse_traceparent(&value) {
            None => None,
            Some(f) => Some(
                TraceContext {
                    trace_id: f.0,
                    span_id: f.1,
                    parent_span_id: None,
                    has_remote_parent: true,
                    sampled: f.2 == 1,
                },
            ),
        },
    }
}

/// Writes `ctx` into `carrier` under `traceparent`, replacing a value already
/// there and leaving every other key alone. A context with a zero id is not
/// written.
pub fn inject(ctx: &TraceContext, carrier: &mut Carrier)
    requires
        old(carrier).wf(),
    ensures
        final(carrier).wf(),
        final(carrier)@ == injected(*ctx, old(carrier)@),
        ctx.is_valid() ==> final(carrier).lookup(traceparent_key()) == Some(
            traceparent_text(ctx.trace_id, ctx.span_id, flags_of(ctx.sampled)),
        ),
        forall|k: Seq<char>|
            k != traceparent_key() ==> #[trigger] final(carrier).lookup(k) == old(carrier).lookup(k),
{
    match encode_traceparent(ctx.trace_id, ctx.span_id, ctx.sampled) {
        Some(value) => carrier.set(traceparent_name(), value),
        None => {},
    }
}

} // verus!
