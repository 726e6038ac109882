use vstd::prelude::*;

verus! {

/// The identifiers of one span.
///
/// `has_remote_parent` is set where the identifiers were read from a carrier:
/// the span they name lives in another process and may parent a local span.
#[derive(Clone, Copy, Debug, PartialEq, Eq, Structural)]
pub struct TraceContext {
    pub trace_id: u128,
    pub span_id: u64,
    pub parent_span_id: Option<u64>,
    pub has_remote_parent: bool,
    pub sampled: bool,
}

impl TraceContext {
    /// Both identifiers are non-zero: only such a context is ever written out.
    pub open spec fn is_valid(&self) -> bool {
        self.trace_id != 0 && self.span_id != 0
    }
}

/// The lower-case hexadecimal digit of `d` (below 16).
pub open spec fn hex_digit(d: nat) -> char {
    seq!['0', '1', '2', '3', '4', '5', '6', '7', '8', '9', 'a', 'b', 'c', 'd', 'e', 'f'][d as int]
}

/// `n` as exactly `width` lower-case hexadecimal digits, most significant
/// first; digits above `width` are dropped.
pub open spec fn hex_text(n: nat, width: nat) -> Seq<char>
    decreases width,
{
    if width == 0 {
        Seq::empty()
    } else {
        hex_text(n / 16, (width - 1) as nat).push(hex_digit(n % 16))
    }
}

/// Relies on the `Display` impl of `opentelemetry::trace::TraceId`, which
/// writes the id as 32 lower-case hexadecimal digits (`{:032x}`).
#[verifier::external_body]
pub(crate) fn trace_id_text(id: u128) -> (r: String)
    ensures
        r@ == hex_text(id as nat, 32),
{
    opentelemetry::trace::TraceId::from(id).to_string()
}

/// Relies on the `Display` impl of `opentelemetry::trace::SpanId`, which
/// writes the id as 16 lower-case hexadecimal digits (`{:016x}`).
#[verifier::external_body]
pub(crate) fn span_id_text(id: u64) -> (r: String)
    ensures
        r@ == hex_text(id as nat, 16),
{
    opentelemetry::trace::SpanId::from(id).to_string()
}

} // verus!
