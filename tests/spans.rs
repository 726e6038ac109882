use easy_tracing::{
    background_span, consumer_span_name, format_at, inbound_span, inbound_span_name, inbound_span_with_ids,
    respond, span_with_ids, start_span, Carrier, FieldValue, Level, LogEvent, ReqwestTraceMiddleware, Scope,
    TraceContext,
};
use std::collections::HashSet;

const X: &str = "00-4bf92f3577b34da6a3ce929d0e0e4736-00f067aa0ba902b7-01";
const X_TRACE: u128 = 0x4bf92f3577b34da6a3ce929d0e0e4736;

fn request_with(value: &str) -> Carrier {
    let mut c = Carrier::new();
    c.set("traceparent".to_string(), value.to_string());
    c
}

fn event(message: &str) -> LogEvent {
    LogEvent {
        level: Level::Info,
        target: "app".to_string(),
        line: Some(1),
        fields: vec![("message".to_string(), FieldValue::Text(message.to_string()))],
    }
}

fn logged_trace_id(line: &str) -> String {
    let v: serde_json::Value = serde_json::from_str(line).unwrap();
    v["trace_id"].as_str().unwrap().to_string()
}

#[test]
fn child_of_remote_parent_continues_trace() {
    let parent = TraceContext { trace_id: 11, span_id: 22, parent_span_id: None, has_remote_parent: true, sampled: false };
    let s = span_with_ids("work".to_string(), Some(parent), 33, 44);
    assert_eq!(s.name, "work");
    assert_eq!(s.context.trace_id, 11);
    assert_eq!(s.context.span_id, 44);
    assert_eq!(s.context.parent_span_id, Some(22));
    assert!(!s.context.has_remote_parent);
    assert!(!s.context.sampled);
}

#[test]
fn local_or_missing_parent_starts_root() {
    let local = TraceContext { trace_id: 11, span_id: 22, parent_span_id: None, has_remote_parent: false, sampled: false };
    for parent in [None, Some(local)] {
        let s = span_with_ids("work".to_string(), parent, 33, 44);
        assert_eq!(s.context.trace_id, 33);
        assert_eq!(s.context.span_id, 44);
        assert_eq!(s.context.parent_span_id, None);
        assert!(s.context.sampled);
    }
}

#[test]
fn many_spans_get_distinct_ids() {
    let mut ids = HashSet::new();
    for _ in 0..10_000 {
        let s = start_span("load".to_string(), None);
        assert!(ids.insert(s.context.span_id));
    }
    assert_eq!(ids.len(), 10_000);
}

#[test]
fn root_spans_get_distinct_trace_ids() {
    let a = start_span("a".to_string(), None);
    let b = start_span("b".to_string(), None);
    assert_ne!(a.context.trace_id, b.context.trace_id);
}

#[test]
fn scope_restores_prior_context() {
    let mut scope = Scope::new();
    assert_eq!(scope.current(), None);
    let outer = span_with_ids("outer".to_string(), None, 1, 2);
    let inner = span_with_ids("inner".to_string(), None, 3, 4);
    let p0 = scope.enter(&outer);
    assert_eq!(p0, None);
    let p1 = scope.enter(&inner);
    assert_eq!(p1, Some(outer.context));
    assert_eq!(scope.current(), Some(inner.context));
    scope.leave(p1);
    assert_eq!(scope.current(), Some(outer.context));
    scope.leave(p0);
    assert_eq!(scope.current(), None);
}

#[test]
fn inbound_call_continues_carried_trace() {
    let request = request_with(X);
    let span = inbound_span(&request);
    assert_eq!(span.name, "http middleware");
    assert_eq!(inbound_span_name(), "http middleware");
    assert_eq!(span.context.trace_id, X_TRACE);
    assert_eq!(span.context.parent_span_id, Some(0x00f067aa0ba902b7));

    let mut scope = Scope::new();
    let prior = scope.enter(&span);
    let line = format_at(event("handling"), scope.current(), "2024-01-01T00:00:00+00:00".to_string());
    assert_eq!(logged_trace_id(&line), "4bf92f3577b34da6a3ce929d0e0e4736");
    scope.leave(prior);

    let mut response = Carrier::new();
    respond(&span, &mut response);
    let echoed = response.get(&"traceparent".to_string()).unwrap();
    assert!(echoed.starts_with("00-4bf92f3577b34da6a3ce929d0e0e4736-"));
    assert_eq!(easy_tracing::extract(&response).unwrap().trace_id, X_TRACE);
}

#[test]
fn inbound_call_without_context_starts_root() {
    let request = request_with("not a traceparent");
    let span = inbound_span_with_ids(&request, 5, 6);
    assert_eq!(span.context.trace_id, 5);
    assert_eq!(span.context.span_id, 6);
    assert_eq!(span.context.parent_span_id, None);
    let span = inbound_span(&Carrier::new());
    assert_eq!(span.context.parent_span_id, None);
}

#[test]
fn outbound_without_ambient_leaves_request_alone() {
    let mut request = Carrier::new();
    request.set("accept".to_string(), "*/*".to_string());
    ReqwestTraceMiddleware().prepare(None, &mut request);
    assert_eq!(request.len(), 1);
    assert_eq!(request.get(&"traceparent".to_string()), None);
}

#[test]
fn outbound_with_ambient_writes_context() {
    let span = span_with_ids("out".to_string(), None, 0xabc, 0xdef);
    let mut request = Carrier::new();
    ReqwestTraceMiddleware().prepare(Some(span.context), &mut request);
    assert_eq!(
        request.get(&"traceparent".to_string()),
        Some("00-00000000000000000000000000000abc-0000000000000def-01".to_string())
    );
}

#[test]
fn background_tasks_keep_their_own_context() {
    let a = background_span(consumer_span_name());
    let b = background_span(consumer_span_name());
    assert_eq!(a.name, "queue consumer");
    assert_eq!(a.context.parent_span_id, None);
    let mut scope_a = Scope::with_context(None);
    let mut scope_b = Scope::with_context(None);
    let pa = scope_a.enter(&a);
    let pb = scope_b.enter(&b);
    let la = format_at(event("a"), scope_a.current(), "t".to_string());
    let lb = format_at(event("b"), scope_b.current(), "t".to_string());
    assert_eq!(logged_trace_id(&la), format!("{:032x}", a.context.trace_id));
    assert_eq!(logged_trace_id(&lb), format!("{:032x}", b.context.trace_id));
    assert_ne!(logged_trace_id(&la), logged_trace_id(&lb));
    scope_a.leave(pa);
    scope_b.leave(pb);
    assert_eq!(scope_a.current(), None);
    assert_eq!(scope_b.current(), None);
}

#[test]
fn started_child_has_new_valid_span_id() {
    let parent = TraceContext { trace_id: 11, span_id: 22, parent_span_id: None, has_remote_parent: true, sampled: true };
    for _ in 0..1000 {
        let s = start_span("child".to_string(), Some(parent));
        assert_eq!(s.context.trace_id, 11);
        assert_ne!(s.context.span_id, 0);
        assert_ne!(s.context.span_id, 22);
        assert_eq!(s.context.parent_span_id, Some(22));
    }
    let root = background_span("root".to_string());
    assert_ne!(root.context.trace_id, 0);
    assert_ne!(root.context.span_id, 0);
}
