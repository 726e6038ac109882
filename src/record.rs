use vstd::prelude::*;
use crate::context::{hex_text, span_id_text, trace_id_text, TraceContext};
use crate::entries::{find, keys_unique, lemma_upsert, position_of, upsert};

verus! {

#[verifier::external_type_specification]
#[verifier::external_body]
pub struct ExNumber(serde_json::Number);

/// Severity of a log event.
#[derive(Clone, Copy, Debug, PartialEq, Eq, Structural)]
pub enum Level {
    Error,
    Warn,
    Info,
    Debug,
    Trace,
}

/// How a level is written in a record.
pub open spec fn level_text(level: Level) -> Seq<char> {
    match level {
        Level::Error => seq!['E', 'R', 'R', 'O', 'R'],
        Level::Warn => seq!['W', 'A', 'R', 'N'],
        Level::Info => seq!['I', 'N', 'F', 'O'],
        Level::Debug => seq!['D', 'E', 'B', 'U', 'G'],
        Level::Trace => seq!['T', 'R', 'A', 'C', 'E'],
    }
}

/// Relies on the `Display` impl of `tracing::Level`, which writes the level's
/// name in capitals.
#[verifier::external_body]
fn level_name(level: Level) -> (r: String)
    ensures
        r@ == level_text(level),
{
    match level {
        Level::Error => tracing::Level::ERROR,
        Level::Warn => tracing::Level::WARN,
        Level::Info => tracing::Level::INFO,
        Level::Debug => tracing::Level::DEBUG,
        Level::Trace => tracing::Level::TRACE,
    }.to_string()
}

/// The value of one field of a log event. A floating-point value arrives as
/// the JSON number it is written as.
pub enum FieldValue {
    Int(i64),
    Uint(u64),
    Bool(bool),
    Text(String),
    Number(serde_json::Number),
}

/// What a field value stands for.
pub enum FieldModel {
    Int(i64),
    Uint(u64),
    Bool(bool),
    Text(Seq<char>),
    Number(serde_json::Number),
}

impl View for FieldValue {
    type V = FieldModel;

    open spec fn view(&self) -> FieldModel {
        match self {
            FieldValue::Int(n) => FieldModel::Int(*n),
            FieldValue::Uint(n) => FieldModel::Uint(*n),
            FieldValue::Bool(b) => FieldModel::Bool(*b),
            FieldValue::Text(s) => FieldModel::Text(s@),
            FieldValue::Number(n) => FieldModel::Number(*n),
        }
    }
}

pub open spec fn entries_model(entries: Seq<(String, FieldValue)>) -> Seq<(Seq<char>, FieldModel)> {
    entries.map_values(|e: (String, FieldValue)| (e.0@, e.1@))
}

/// One log event: its level, where it was emitted, and its fields in the
/// order they were recorded (the message is a field named `message`).
pub struct LogEvent {
    pub level: Level,
    pub target: String,
    pub line: Option<u32>,
    pub fields: Vec<(String, FieldValue)>,
}

/// The caller's fields as a record: a later field overwrites an earlier one
/// of the same name in place.
pub open spec fn caller_record(fields: Seq<(Seq<char>, FieldModel)>) -> Seq<(Seq<char>, FieldModel)>
    decreases fields.len(),
{
    if fields.len() == 0 {
        Seq::empty()
    } else {
        upsert(caller_record(fields.drop_last()), fields.last().0, fields.last().1)
    }
}

pub open spec fn trace_id_key() -> Seq<char> {
    "trace_id"@
}

pub open spec fn span_id_key() -> Seq<char> {
    "span_id"@
}

pub open spec fn level_key() -> Seq<char> {
    "level"@
}

pub open spec fn target_key() -> Seq<char> {
    "target"@
}

pub open spec fn line_number_key() -> Seq<char> {
    "line_number"@
}

pub open spec fn timestamp_key() -> Seq<char> {
    "timestamp"@
}

/// The trace id written for `ambient`: zero where no span is active.
pub open spec fn ambient_trace_id(ambient: Option<TraceContext>) -> u128 {
    match ambient {
        Some(c) => c.trace_id,
        None => 0,
    }
}

/// The span id written for `ambient`: zero where no span is active.
pub open spec fn ambient_span_id(ambient: Option<TraceContext>) -> u64 {
    match ambient {
        Some(c) => c.span_id,
        None => 0,
    }
}

pub open spec fn line_or_zero(line: Option<u32>) -> u64 {
    match line {
        Some(n) => n as u64,
        None => 0,
    }
}

/// The record for an event: the caller's fields first, then the required
/// keys, each overwriting a caller field of the same name.
pub open spec fn record_of(
    level: Level,
    target: Seq<char>,
    line: Option<u32>,
    fields: Seq<(Seq<char>, FieldModel)>,
    ambient: Option<TraceContext>,
    timestamp: Seq<char>,
) -> Seq<(Seq<char>, FieldModel)> {
    upsert(
        required_but_time(level, target, line, fields, ambient),
        timestamp_key(),
        FieldModel::Text(timestamp),
    )
}

/// The record for an event before its timestamp is written.
pub open spec fn required_but_time(
    level: Level,
    target: Seq<char>,
    line: Option<u32>,
    fields: Seq<(Seq<char>, FieldModel)>,
    ambient: Option<TraceContext>,
) -> Seq<(Seq<char>, FieldModel)> {
    let r0 = caller_record(fields);
    let r1 = upsert(r0, trace_id_key(), FieldModel::Text(hex_text(ambient_trace_id(ambient) as nat, 32)));
    let r2 = upsert(r1, span_id_key(), FieldModel::Text(hex_text(ambient_span_id(ambient) as nat, 16)));
    let r3 = upsert(r2, level_key(), FieldModel::Text(level_text(level)));
    let r4 = upsert(r3, target_key(), FieldModel::Text(target));
    upsert(r4, line_number_key(), FieldModel::Uint(line_or_zero(line)))
}

/// The record of `event` under `ambient`, stamped with `timestamp`.
pub open spec fn event_record(event: LogEvent, ambient: Option<TraceContext>, timestamp: Seq<char>) -> Seq<(Seq<char>, FieldModel)> {
    record_of(event.level, event.target@, event.line, entries_model(event.fields@), ambient, timestamp)
}

/// What serde_json writes for an object that holds these entries.
pub uninterp spec fn json_object_text(entries: Seq<(Seq<char>, FieldModel)>) -> Seq<char>;

/// Relies on serde_json: the entries are put into a `serde_json::Map` in
/// order and the resulting `Value::Object` is written with `to_string`.
#[verifier::external_body]
fn render_object(entries: &Vec<(String, FieldValue)>) -> (r: String)
    ensures
        r@ == json_object_text(entries_model(entries@)),
{
    let mut map = serde_json::Map::new();
    for (key, value) in entries {
        let v = match value {
            FieldValue::Int(n) => serde_json::Value::from(*n),
            FieldValue::Uint(n) => serde_json::Value::from(*n),
            FieldValue::Bool(b) => serde_json::Value::Bool(*b),
            FieldValue::Text(s) => serde_json::Value::String(s.clone()),
            FieldValue::Number(n) => serde_json::Value::Number(n.clone()),
        };
        map.insert(key.clone(), v);
    }
    serde_json::Value::Object(map).to_string()
}

/// Relies on `chrono::Utc::now().to_rfc3339()`: the current time. Nothing is
/// promised of its value.
#[verifier::external_body]
fn now_rfc3339() -> (r: String) {
    chrono::Utc::now().to_rfc3339()
}

/// Sets `key` to `value` in a record, in place where the key is present.
fn put(record: &mut Vec<(String, FieldValue)>, key: String, value: FieldValue)
    requires
        keys_unique(entries_model(old(record)@)),
    ensures
        keys_unique(entries_model(final(record)@)),
        entries_model(final(record)@) == upsert(entries_model(old(record)@), key@, value@),
{
    let ghost before = entries_model(record@);
    proof {
        lemma_upsert(before, key@, value@);
    }
    match position_of(record, &key) {
        Some(i) => {
            assert(before[i as int].0 == key@);
            let ghost c = choose|j: int| 0 <= j < before.len() && before[j].0 == key@;
            assert(c == i as int);
            record.set(i, (key, value));
            assert(entries_model(record@) =~= upsert(before, key@, value@));
        },
        None => {
            assert(forall|j: int| 0 <= j < before.len() ==> before[j].0 != key@);
            record.push((key, value));
            assert(entries_model(record@) =~= upsert(before, key@, value@));
        },
    }
}

/// The record of one event under the ambient context, stamped with
/// `timestamp`: the caller's fields, then `trace_id`, `span_id`, `level`,
/// `target`, `line_number` and `timestamp`, each overwriting a caller field
/// of the same name. No active span gives all-zero ids.
pub fn format_record(event: LogEvent, ambient: Option<TraceContext>, timestamp: String) -> (r: Vec<(String, FieldValue)>)
    ensures
        keys_unique(entries_model(r@)),
        entries_model(r@) == event_record(event, ambient, timestamp@),
{
    let ghost spec_event = event;
    let ghost fields = entries_model(event.fields@);
    let LogEvent { level, target, line, fields: mut rest } = event;
    let mut record: Vec<(String, FieldValue)> = Vec::new();
    let ghost n = rest@.len();
    assert(entries_model(record@) =~= caller_record(fields.take(0)));
    while rest.len() > 0
        invariant
            n == fields.len(),
            rest@.len() <= n,
            entries_model(rest@) == fields.skip(n - rest@.len()),
            keys_unique(entries_model(record@)),
            entries_model(record@) == caller_record(fields.take(n - rest@.len())),
        decreases rest@.len(),
    {
        let ghost done = n - rest@.len();
        let ghost old_rest = rest@;
        let (key, value) = rest.remove(0);
        assert(entries_model(old_rest)[0] == fields.skip(done)[0]);
        assert(fields[done] == (key@, value@)) by {
            assert(fields.skip(done)[0] == fields[done]);
        }
        put(&mut record, key, value);
        assert(fields.take(done + 1).drop_last() =~= fields.take(done));
        assert forall|i: int| 0 <= i < rest@.len() implies entries_model(rest@)[i] == fields.skip(done + 1)[i] by {
            assert(rest@[i] == old_rest[i + 1]);
            assert(entries_model(old_rest)[i + 1] == fields.skip(done)[i + 1]);
        }
        assert(entries_model(rest@) =~= fields.skip(done + 1));
    }
    assert(fields.take(n as int) =~= fields);
    let ambient_trace: u128 = match ambient {
        Some(c) => c.trace_id,
        None => 0,
    };
    let ambient_span: u64 = match ambient {
        Some(c) => c.span_id,
        None => 0,
    };
    let line_number: u64 = match line {
        Some(l) => l as u64,
        None => 0,
    };
    put(&mut record, String::from_str("trace_id"), FieldValue::Text(trace_id_text(ambient_trace)));
    put(&mut record, String::from_str("span_id"), FieldValue::Text(span_id_text(ambient_span)));
    put(&mut record, String::from_str("level"), FieldValue::Text(level_name(level)));
    put(&mut record, String::from_str("target"), FieldValue::Text(target));
    put(&mut record, String::from_str("line_number"), FieldValue::Uint(line_number));
    put(&mut record, String::from_str("timestamp"), FieldValue::Text(timestamp));
    record
}

/// The JSON line of one event under the ambient context, stamped with
/// `timestamp`.
pub fn format_at(event: LogEvent, ambient: Option<TraceContext>, timestamp: String) -> (r: String)
    ensures
        r@ == json_object_text(event_record(event, ambient, timestamp@)),
{
    let record = format_record(event, ambient, timestamp);
    render_object(&record)
}

/// The JSON line of one event under the ambient context, stamped with the
/// current time.
pub fn format_event(event: LogEvent, ambient: Option<TraceContext>) -> (r: String)
    ensures
        exists|t: Seq<char>| r@ == json_object_text(event_record(event, ambient, t)),
{
    format_at(event, ambient, now_rfc3339())
}

/// A record built from fields alone never holds a key twice.
pub proof fn lemma_caller_record_unique(fields: Seq<(Seq<char>, FieldModel)>)
    ensures
        keys_unique(caller_record(fields)),
    decreases fields.len(),
{
    if fields.len() > 0 {
        lemma_caller_record_unique(fields.drop_last());
        lemma_upsert(caller_record(fields.drop_last()), fields.last().0, fields.last().1);
    }
}

/// Formatting is total and the required keys always win: whatever the
/// event's fields are named, the record holds each key once, and `trace_id`,
/// `span_id`, `level`, `target`, `line_number` and `timestamp` hold the values
/// computed from the event and the ambient context (all-zero ids where no
/// span is active).
pub proof fn lemma_required_keys(event: LogEvent, ambient: Option<TraceContext>, timestamp: Seq<char>)
    ensures
        keys_unique(event_record(event, ambient, timestamp)),
        find(event_record(event, ambient, timestamp), trace_id_key()) == Some(
            FieldModel::Text(hex_text(ambient_trace_id(ambient) as nat, 32)),
        ),
        find(event_record(event, ambient, timestamp), span_id_key()) == Some(
            FieldModel::Text(hex_text(ambient_span_id(ambient) as nat, 16)),
        ),
        find(event_record(event, ambient, timestamp), level_key()) == Some(
            FieldModel::Text(level_text(event.level)),
        ),
        find(event_record(event, ambient, timestamp), target_key()) == Some(
            FieldModel::Text(event.target@),
        ),
        find(event_record(event, ambient, timestamp), line_number_key()) == Some(
            FieldModel::Uint(line_or_zero(event.line)),
        ),
        find(event_record(event, ambient, timestamp), timestamp_key()) == Some(
            FieldModel::Text(timestamp),
        ),
{
    reveal_strlit("trace_id");
    reveal_strlit("span_id");
    reveal_strlit("level");
    reveal_strlit("target");
    reveal_strlit("line_number");
    reveal_strlit("timestamp");
    let fields = entries_model(event.fields@);
    let r0 = caller_record(fields);
    let v1 = FieldModel::Text(hex_text(ambient_trace_id(ambient) as nat, 32));
    let v2 = FieldModel::Text(hex_text(ambient_span_id(ambient) as nat, 16));
    let v3 = FieldModel::Text(level_text(event.level));
    let v4 = FieldModel::Text(event.target@);
    let v5 = FieldModel::Uint(line_or_zero(event.line));
    let v6 = FieldModel::Text(timestamp);
    let r1 = upsert(r0, trace_id_key(), v1);
    let r2 = upsert(r1, span_id_key(), v2);
    let r3 = upsert(r2, level_key(), v3);
    let r4 = upsert(r3, target_key(), v4);
    let r5 = upsert(r4, line_number_key(), v5);
    let r6 = upsert(r5, timestamp_key(), v6);
    lemma_caller_record_unique(fields);
    lemma_upsert(r0, trace_id_key(), v1);
    lemma_upsert(r1, span_id_key(), v2);
    lemma_upsert(r2, level_key(), v3);
    lemma_upsert(r3, target_key(), v4);
    lemma_upsert(r4, line_number_key(), v5);
    lemma_upsert(r5, timestamp_key(), v6);
    assert(r6 == event_record(event, ambient, timestamp));
    assert(trace_id_key().len() == 8 && span_id_key().len() == 7 && level_key().len() == 5);
    assert(target_key().len() == 6 && line_number_key().len() == 11 && timestamp_key().len() == 9);
    assert(find(r6, trace_id_key()) == find(r5, trace_id_key()));
    assert(find(r5, trace_id_key()) == find(r4, trace_id_key()));
    assert(find(r4, trace_id_key()) == find(r3, trace_id_key()));
    assert(find(r3, trace_id_key()) == find(r2, trace_id_key()));
    assert(find(r2, trace_id_key()) == find(r1, trace_id_key()));
    assert(find(r6, span_id_key()) == find(r5, span_id_key()));
    assert(find(r5, span_id_key()) == find(r4, span_id_key()));
    assert(find(r4, span_id_key()) == find(r3, span_id_key()));
    assert(find(r3, span_id_key()) == find(r2, span_id_key()));
    assert(find(r6, level_key()) == find(r5, level_key()));
    assert(find(r5, level_key()) == find(r4, level_key()));
    assert(find(r4, level_key()) == find(r3, level_key()));
    assert(find(r6, target_key()) == find(r5, target_key()));
    assert(find(r5, target_key()) == find(r4, target_key()));
    assert(find(r6, line_number_key()) == find(r5, line_number_key()));
}

/// Formatting is deterministic: two stampings of one event under one ambient
/// context agree on every key but `timestamp`.
pub proof fn lemma_same_but_timestamp(event: LogEvent, ambient: Option<TraceContext>, t1: Seq<char>, t2: Seq<char>)
    ensures
        forall|k: Seq<char>|
            k != timestamp_key() ==> #[trigger] find(event_record(event, ambient, t1), k) == find(
                event_record(event, ambient, t2),
                k,
            ),
        t1 == t2 ==> event_record(event, ambient, t1) == event_record(event, ambient, t2),
{
    let before = required_but_time(event.level, event.target@, event.line, entries_model(event.fields@), ambient);
    lemma_required_keys(event, ambient, t1);
    assert forall|k: Seq<char>| k != timestamp_key() implies #[trigger] find(event_record(event, ambient, t1), k)
        == find(event_record(event, ambient, t2), k) by {
        lemma_caller_record_unique(entries_model(event.fields@));
        lemma_required_unique(event, ambient);
        lemma_upsert(before, timestamp_key(), FieldModel::Text(t1));
        lemma_upsert(before, timestamp_key(), FieldModel::Text(t2));
    }
}

proof fn lemma_required_unique(event: LogEvent, ambient: Option<TraceContext>)
    ensures
        keys_unique(required_but_time(event.level, event.target@, event.line, entries_model(event.fields@), ambient)),
{
    let fields = entries_model(event.fields@);
    let r0 = caller_record(fields);
    let r1 = upsert(r0, trace_id_key(), FieldModel::Text(hex_text(ambient_trace_id(ambient) as nat, 32)));
    let r2 = upsert(r1, span_id_key(), FieldModel::Text(hex_text(ambient_span_id(ambient) as nat, 16)));
    let r3 = upsert(r2, level_key(), FieldModel::Text(level_text(event.level)));
    let r4 = upsert(r3, target_key(), FieldModel::Text(event.target@));
    lemma_caller_record_unique(fields);
    lemma_upsert(r0, trace_id_key(), FieldModel::Text(hex_text(ambient_trace_id(ambient) as nat, 32)));
    lemma_upsert(r1, span_id_key(), FieldModel::Text(hex_text(ambient_span_id(ambient) as nat, 16)));
    lemma_upsert(r2, level_key(), FieldModel::Text(level_text(event.level)));
    lemma_upsert(r3, target_key(), FieldModel::Text(event.target@));
    lemma_upsert(r4, line_number_key(), FieldModel::Uint(line_or_zero(event.line)));
}

} // verus!
