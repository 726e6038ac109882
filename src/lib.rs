//! Trace-context propagation and structured JSON logging.
//!
//! The library decides how a unit of work joins a distributed trace: it reads a
//! W3C `traceparent` value from an inbound carrier, derives the span that the
//! work runs in, scopes that span as the ambient context, writes the context
//! into outbound carriers, and renders log events as one flat JSON object each.

mod carrier;
mod config;
mod context;
mod entries;
mod record;
mod propagation;
mod span;

pub use carrier::Carrier;
pub use config::{ComponentName, ConfigError, LogFormat};
pub use context::TraceContext;
pub use record::{format_at, format_event, format_record, FieldValue, Level, LogEvent};
pub use propagation::{extract, inject, traceparent_name};
pub use span::{
    background_span, consumer_span_name, inbound_span, inbound_span_name, inbound_span_with_ids,
    respond, span_with_ids, start_span, ActiveSpan, ReqwestTraceMiddleware, Scope,
};
