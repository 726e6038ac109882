use easy_tracing::{format_at, format_event, format_record, FieldValue, Level, LogEvent, TraceContext};

fn hello(level: Level) -> LogEvent {
    LogEvent {
        level,
        target: "svc::api".to_string(),
        line: Some(42),
        fields: vec![("message".to_string(), FieldValue::Text("hello".to_string()))],
    }
}

fn parse(line: &str) -> serde_json::Map<String, serde_json::Value> {
    match serde_json::from_str::<serde_json::Value>(line).unwrap() {
        serde_json::Value::Object(m) => m,
        other => panic!("not an object: {}", other),
    }
}

const TS: &str = "2024-05-01T12:00:00+00:00";

#[test]
fn no_ambient_context_gives_empty_ids() {
    let m = parse(&format_at(hello(Level::Info), None, TS.to_string()));
    assert_eq!(m["trace_id"], "00000000000000000000000000000000");
    assert_eq!(m["span_id"], "0000000000000000");
    assert_eq!(m["level"], "INFO");
    assert_eq!(m["message"], "hello");
    assert_eq!(m["target"], "svc::api");
    assert_eq!(m["line_number"], 42);
    assert_eq!(m["timestamp"], TS);
    assert_eq!(m.len(), 7);
}

#[test]
fn ambient_context_ids_are_written_in_hex() {
    let ctx = TraceContext {
        trace_id: 0x4bf92f3577b34da6a3ce929d0e0e4736,
        span_id: 0x00f067aa0ba902b7,
        parent_span_id: None,
        has_remote_parent: false,
        sampled: true,
    };
    let m = parse(&format_at(hello(Level::Warn), Some(ctx), TS.to_string()));
    assert_eq!(m["trace_id"], "4bf92f3577b34da6a3ce929d0e0e4736");
    assert_eq!(m["span_id"], "00f067aa0ba902b7");
    assert_eq!(m["level"], "WARN");
}

#[test]
fn every_level_has_its_name() {
    for (level, name) in [
        (Level::Error, "ERROR"),
        (Level::Warn, "WARN"),
        (Level::Info, "INFO"),
        (Level::Debug, "DEBUG"),
        (Level::Trace, "TRACE"),
    ] {
        let m = parse(&format_at(hello(level), None, TS.to_string()));
        assert_eq!(m["level"], name);
    }
}

#[test]
fn unknown_line_is_zero() {
    let mut e = hello(Level::Info);
    e.line = None;
    let m = parse(&format_at(e, None, TS.to_string()));
    assert_eq!(m["line_number"], 0);
}

#[test]
fn field_kinds_are_typed() {
    let e = LogEvent {
        level: Level::Debug,
        target: "t".to_string(),
        line: None,
        fields: vec![
            ("neg".to_string(), FieldValue::Int(-5)),
            ("big".to_string(), FieldValue::Uint(u64::MAX)),
            ("flag".to_string(), FieldValue::Bool(true)),
            ("text".to_string(), FieldValue::Text("x y".to_string())),
            ("ratio".to_string(), FieldValue::Number(serde_json::Number::from_f64(0.5).unwrap())),
        ],
    };
    let m = parse(&format_at(e, None, TS.to_string()));
    assert_eq!(m["neg"], -5);
    assert_eq!(m["big"], u64::MAX);
    assert_eq!(m["flag"], true);
    assert_eq!(m["text"], "x y");
    assert_eq!(m["ratio"], 0.5);
}

#[test]
fn non_finite_number_stays_well_formed() {
    let coerced = serde_json::Number::from_f64(f64::NAN).unwrap_or_else(|| serde_json::Number::from(0));
    let e = LogEvent {
        level: Level::Info,
        target: "t".to_string(),
        line: None,
        fields: vec![("nan".to_string(), FieldValue::Number(coerced))],
    };
    let m = parse(&format_event(e, None));
    assert_eq!(m["nan"], 0);
    assert!(m.contains_key("trace_id"));
    assert!(m.contains_key("span_id"));
    assert!(m["timestamp"].as_str().unwrap().len() > 0);
}

#[test]
fn required_keys_overwrite_caller_fields() {
    let e = LogEvent {
        level: Level::Error,
        target: "real".to_string(),
        line: Some(7),
        fields: vec![
            ("level".to_string(), FieldValue::Text("fake".to_string())),
            ("trace_id".to_string(), FieldValue::Uint(1)),
            ("target".to_string(), FieldValue::Bool(false)),
            ("timestamp".to_string(), FieldValue::Int(0)),
        ],
    };
    let m = parse(&format_at(e, None, TS.to_string()));
    assert_eq!(m["level"], "ERROR");
    assert_eq!(m["trace_id"], "00000000000000000000000000000000");
    assert_eq!(m["target"], "real");
    assert_eq!(m["timestamp"], TS);
    assert_eq!(m.len(), 6);
}

#[test]
fn later_caller_field_wins() {
    let e = LogEvent {
        level: Level::Info,
        target: "t".to_string(),
        line: None,
        fields: vec![
            ("k".to_string(), FieldValue::Int(1)),
            ("other".to_string(), FieldValue::Int(2)),
            ("k".to_string(), FieldValue::Int(3)),
        ],
    };
    let r = format_record(e, None, TS.to_string());
    let names: Vec<&str> = r.iter().map(|(k, _)| k.as_str()).collect();
    assert_eq!(names, vec!["k", "other", "trace_id", "span_id", "level", "target", "line_number", "timestamp"]);
    assert!(matches!(r[0].1, FieldValue::Int(3)));
}

#[test]
fn formatting_twice_gives_same_line() {
    let a = format_at(hello(Level::Info), None, TS.to_string());
    let b = format_at(hello(Level::Info), None, TS.to_string());
    assert_eq!(a, b);
    let mut c = parse(&format_event(hello(Level::Info), None));
    let mut d = parse(&format_event(hello(Level::Info), None));
    c.remove("timestamp");
    d.remove("timestamp");
    assert_eq!(c, d);
}

#[test]
fn output_is_one_line() {
    let e = LogEvent {
        level: Level::Info,
        target: "t".to_string(),
        line: None,
        fields: vec![("message".to_string(), FieldValue::Text("two\nlines".to_string()))],
    };
    let line = format_at(e, None, TS.to_string());
    assert!(!line.contains('\n'));
    assert_eq!(parse(&line)["message"], "two\nlines");
}
