//! Turning one log event into the record that the remote log API takes.
use vstd::prelude::*;
use crate::event::{lookup, message_key, removed, stamp_of, structured, timestamp_key, Field, LogEvent, Value};

verus! {

/// How the body of a record is written.
#[derive(PartialEq, Eq, Structural, Clone, Copy, Debug)]
pub enum Encoding {
    /// The message field's text.
    Text,
    /// All fields but the timestamp, as one JSON object.
    Json,
}

/// One record of a write: its text and its time in epoch milliseconds.
#[derive(Debug)]
pub struct InputLogEvent {
    pub message: String,
    pub timestamp: i64,
}

/// The lower-case hexadecimal digits.
pub open spec fn hex_digits() -> Seq<char> {
    seq!['0', '1', '2', '3', '4', '5', '6', '7', '8', '9', 'a', 'b', 'c', 'd', 'e', 'f']
}

/// How one character is written inside a JSON string: the quote and the
/// backslash are escaped, control characters get their short escape or a
/// `\u00XX` form, and every other character stands as it is.
pub open spec fn json_escape_char(c: char) -> Seq<char> {
    if c == '"' {
        seq!['\\', '"']
    } else if c == '\\' {
        seq!['\\', '\\']
    } else if c == '\x08' {
        seq!['\\', 'b']
    } else if c == '\t' {
        seq!['\\', 't']
    } else if c == '\n' {
        seq!['\\', 'n']
    } else if c == '\x0C' {
        seq!['\\', 'f']
    } else if c == '\r' {
        seq!['\\', 'r']
    } else if (c as u32) < 0x20 {
        seq!['\\', 'u', '0', '0', hex_digits()[((c as u32) / 16) as int], hex_digits()[((c as u32) % 16) as int]]
    } else {
        seq![c]
    }
}

/// The characters of `s`, each escaped for a JSON string.
pub open spec fn json_escaped(s: Seq<char>) -> Seq<char>
    decreases s.len(),
{
    if s.len() == 0 {
        Seq::empty()
    } else {
        json_escaped(s.drop_last()) + json_escape_char(s.last())
    }
}

/// The JSON string literal holding `s`, quotes included.
pub open spec fn json_string_of(s: Seq<char>) -> Seq<char> {
    "\""@ + json_escaped(s) + "\""@
}

/// What `chrono` writes for the instant `ms` milliseconds after the epoch in
/// RFC 3339 form, in UTC with millisecond precision (empty where chrono has no
/// such instant).
pub uninterp spec fn rfc3339_of(ms: i64) -> Seq<char>;

/// Relies on serde_json's `Display` for `Value::String`, which writes the
/// string compactly through `format_escaped_str`: a quote, each character as
/// its escape table gives it, a quote.
#[verifier::external_body]
fn json_string(s: &str) -> (r: String)
    ensures
        r@ == json_string_of(s@),
{
    serde_json::Value::String(s.to_string()).to_string()
}

/// Relies on chrono's `DateTime::from_timestamp_millis` and
/// `DateTime::to_rfc3339_opts`: the text of an instant depends on it alone.
#[verifier::external_body]
fn rfc3339(ms: i64) -> (r: String)
    ensures
        r@ == rfc3339_of(ms),
{
    match chrono::DateTime::from_timestamp_millis(ms) {
        Some(t) => t.to_rfc3339_opts(chrono::SecondsFormat::Millis, true),
        None => String::new(),
    }
}

/// Relies on chrono's `Utc::now` and `DateTime::timestamp_millis`: the current
/// time in epoch milliseconds. Nothing is known of its value.
#[verifier::external_body]
pub(crate) fn now_millis() -> (r: i64) {
    chrono::Utc::now().timestamp_millis()
}

/// The text form of a field value.
pub open spec fn value_text(v: Value) -> Seq<char> {
    match v {
        Value::Bytes(s) => s@,
        Value::Timestamp(ms) => rfc3339_of(ms),
    }
}

/// One `"key":"value"` member of the JSON body.
pub open spec fn json_member(f: Field) -> Seq<char> {
    json_string_of(f.key@) + ":"@ + json_string_of(value_text(f.value))
}

/// The members of the JSON body, separated by commas.
pub open spec fn json_members(s: Seq<Field>) -> Seq<char>
    decreases s.len(),
{
    if s.len() == 0 {
        Seq::empty()
    } else if s.len() == 1 {
        json_member(s[0])
    } else {
        json_members(s.drop_last()) + ","@ + json_member(s.last())
    }
}

/// The JSON object holding the fields `s`, in order.
pub open spec fn json_object(s: Seq<Field>) -> Seq<char> {
    "{"@ + json_members(s) + "}"@
}

/// Which body a record gets, by configured encoding and structure.
pub open spec fn body_is_json(encoding: Option<Encoding>, is_structured: bool) -> bool {
    match encoding {
        Some(Encoding::Json) => true,
        Some(Encoding::Text) => false,
        None => is_structured,
    }
}

/// The time of a record: the event's own timestamp, else `now`.
pub open spec fn record_time(s: Seq<Field>, now: i64) -> i64 {
    match stamp_of(s) {
        Some(ms) => ms,
        None => now,
    }
}

/// The body of a record for the fields `s`, timestamp included.
pub open spec fn record_body(encoding: Option<Encoding>, s: Seq<Field>) -> Seq<char> {
    let rest = removed(s, timestamp_key());
    if body_is_json(encoding, structured(rest)) {
        json_object(rest)
    } else {
        match lookup(rest, message_key()) {
            Some(v) => value_text(v),
            None => Seq::empty(),
        }
    }
}

/// The text form of a field value.
pub fn value_to_text(v: &Value) -> (r: String)
    ensures
        r@ == value_text(*v),
{
    match v {
        Value::Bytes(s) => s.clone(),
        Value::Timestamp(ms) => rfc3339(*ms),
    }
}

/// The JSON object holding the fields `fields`, in order.
pub fn fields_to_json(fields: &Vec<Field>) -> (r: String)
    ensures
        r@ == json_object(fields@),
{
    let mut out = String::new();
    out.append("{");
    let mut i: usize = 0;
    while i < fields.len()
        invariant
            i <= fields.len(),
            out@ == "{"@ + json_members(fields@.subrange(0, i as int)),
        decreases fields.len() - i,
    {
        let ghost s = fields@.subrange(0, i as int + 1);
        proof {
            assert(s.drop_last() =~= fields@.subrange(0, i as int));
            assert(s.last() == fields@[i as int]);
        }
        if i > 0 {
            out.append(",");
        }
        let k = json_string(fields[i].key.as_str());
        let t = value_to_text(&fields[i].value);
        let v = json_string(t.as_str());
        out.append(k.as_str());
        out.append(":");
        out.append(v.as_str());
        proof {
            assert(fields@.subrange(0, 0) =~= Seq::<Field>::empty());
            assert(out@ =~= "{"@ + json_members(s));
        }
        i = i + 1;
    }
    assert(fields@.subrange(0, fields.len() as int) =~= fields@);
    out.append("}");
    out
}

/// Encodes `log` into a record, with `now` as the time of an event that
/// carries no timestamp.
pub fn encode_log_at(encoding: Option<Encoding>, log: LogEvent, now: i64) -> (r: InputLogEvent)
    requires
        log.wf(),
    ensures
        r.timestamp == record_time(log.fields@, now),
        r.message@ == record_body(encoding, log.fields@),
{
    let mut log = log;
    let timestamp = match log.remove("timestamp") {
        Some(Value::Timestamp(ms)) => ms,
        _ => now,
    };
    proof { reveal_strlit("timestamp"); reveal_strlit("message"); }
    let json = match encoding {
        Some(Encoding::Json) => true,
        Some(Encoding::Text) => false,
        None => log.is_structured(),
    };
    if json {
        InputLogEvent { message: fields_to_json(&log.fields), timestamp }
    } else {
        let message = match log.get("message") {
            Some(v) => value_to_text(v),
            None => String::new(),
        };
        InputLogEvent { message, timestamp }
    }
}

/// Encodes `log` into a record, reading the clock for an event that carries
/// no timestamp.
pub fn encode_log_now(encoding: Option<Encoding>, log: LogEvent) -> (r: InputLogEvent)
    requires
        log.wf(),
    ensures
        exists|now: i64| r.timestamp == record_time(log.fields@, now),
        r.message@ == record_body(encoding, log.fields@),
{
    let now = now_millis();
    encode_log_at(encoding, log, now)
}

} // verus!
