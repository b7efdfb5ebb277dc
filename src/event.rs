//! Raw input events, their normalized form, and the listener's output lines.

use vstd::prelude::*;

use crate::json::{
    decimal_i64, decimal_u64, fields_view, int_text, json_object, json_string, json_string_of,
    nat_text, object_text,
};

verus! {

/// What happened, as the global input hook reports it.
///
/// Key and button identifiers are the hook's debug-formatted labels (`KeyA`,
/// `Left`); pointer coordinates arrive already written as JSON numbers.
#[derive(Clone, Debug, PartialEq)]
pub enum EventKind {
    KeyPress(String),
    KeyRelease(String),
    ButtonPress(String),
    ButtonRelease(String),
    MouseMove { x: String, y: String },
    Wheel { delta_x: i64, delta_y: i64 },
}

/// A capture time: whole seconds and nanoseconds since the Unix epoch.
#[derive(Clone, Copy, Debug, PartialEq, Eq, Structural)]
pub struct Timestamp {
    pub secs: u64,
    pub nanos: u32,
}

/// One event as the hook delivers it.
#[derive(Clone, Debug, PartialEq)]
pub struct RawEvent {
    pub kind: EventKind,
    pub name: Option<String>,
    pub time: Timestamp,
}

/// The flat record built from one raw event; `data` is a JSON object in text.
#[derive(Clone, Debug, PartialEq)]
pub struct NormalizedInputEvent {
    pub event_type: String,
    pub name: Option<String>,
    pub time: Timestamp,
    pub data: String,
}

/// The tag that names the kind of an event.
pub open spec fn tag_of(kind: EventKind) -> Seq<char> {
    match kind {
        EventKind::KeyPress(_) => "KeyPress"@,
        EventKind::KeyRelease(_) => "KeyRelease"@,
        EventKind::ButtonPress(_) => "ButtonPress"@,
        EventKind::ButtonRelease(_) => "ButtonRelease"@,
        EventKind::MouseMove { .. } => "MouseMove"@,
        EventKind::Wheel { .. } => "Wheel"@,
    }
}

/// The members of an event's `data` object: keys and JSON value texts.
pub open spec fn payload_fields(kind: EventKind) -> Seq<(Seq<char>, Seq<char>)> {
    match kind {
        EventKind::KeyPress(k) => seq![("key"@, json_string_of(k@))],
        EventKind::KeyRelease(k) => seq![("key"@, json_string_of(k@))],
        EventKind::ButtonPress(b) => seq![("key"@, json_string_of(b@))],
        EventKind::ButtonRelease(b) => seq![("key"@, json_string_of(b@))],
        EventKind::MouseMove { x, y } => seq![("x"@, x@), ("y"@, y@)],
        EventKind::Wheel { delta_x, delta_y } => seq![
            ("delta_x"@, int_text(delta_x as int)),
            ("delta_y"@, int_text(delta_y as int)),
        ],
    }
}

/// The `data` text of an event.
pub open spec fn payload_text(kind: EventKind) -> Seq<char> {
    object_text(payload_fields(kind))
}

/// Whether the listener reports an event of this kind.
pub open spec fn is_keyboard(kind: EventKind) -> bool {
    kind is KeyPress || kind is KeyRelease
}

/// The text of an optional name: `null`, or a JSON string.
pub open spec fn name_text(name: Option<String>) -> Seq<char> {
    match name {
        Some(n) => json_string_of(n@),
        None => "null"@,
    }
}

/// The text of a capture time, as serde writes a `SystemTime`.
pub open spec fn time_text(t: Timestamp) -> Seq<char> {
    object_text(
        seq![
            ("secs_since_epoch"@, nat_text(t.secs as nat)),
            ("nanos_since_epoch"@, nat_text(t.nanos as nat)),
        ],
    )
}

/// The one-line JSON record of a normalized event, fields in declaration order.
pub open spec fn record_text(e: NormalizedInputEvent) -> Seq<char> {
    object_text(
        seq![
            ("event_type"@, json_string_of(e.event_type@)),
            ("name"@, name_text(e.name)),
            ("time"@, time_text(e.time)),
            ("data"@, json_string_of(e.data@)),
        ],
    )
}

/// What the listener writes for one raw event, if anything.
pub open spec fn listener_output(e: RawEvent) -> Option<Seq<char>> {
    if is_keyboard(e.kind) {
        Some(
            object_text(
                seq![
                    ("event_type"@, json_string_of(tag_of(e.kind))),
                    ("name"@, name_text(e.name)),
                    ("time"@, time_text(e.time)),
                    ("data"@, json_string_of(payload_text(e.kind))),
                ],
            ),
        )
    } else {
        None
    }
}

fn text_field(key: &str, value: String) -> (r: (String, String))
    ensures
        r.0@ == key@,
        r.1@ == value@,
{
    (String::from_str(key), value)
}

fn event_tag(kind: &EventKind) -> (r: String)
    ensures
        r@ == tag_of(*kind),
{
    match kind {
        EventKind::KeyPress(_) => String::from_str("KeyPress"),
        EventKind::KeyRelease(_) => String::from_str("KeyRelease"),
        EventKind::ButtonPress(_) => String::from_str("ButtonPress"),
        EventKind::ButtonRelease(_) => String::from_str("ButtonRelease"),
        EventKind::MouseMove { .. } => String::from_str("MouseMove"),
        EventKind::Wheel { .. } => String::from_str("Wheel"),
    }
}

/// Builds the `data` object of an event: `{"key":..}` for key and button
/// events, `{"x":..,"y":..}` for motion, `{"delta_x":..,"delta_y":..}` for
/// scrolling.
pub fn event_payload(kind: &EventKind) -> (r: String)
    ensures
        r@ == payload_text(*kind),
{
    let mut fields: Vec<(String, String)> = Vec::new();
    match kind {
        EventKind::KeyPress(k) | EventKind::KeyRelease(k) | EventKind::ButtonPress(k)
        | EventKind::ButtonRelease(k) => {
            fields.push(text_field("key", json_string(k.as_str())));
        },
        EventKind::MouseMove { x, y } => {
            fields.push(text_field("x", x.clone()));
            fields.push(text_field("y", y.clone()));
        },
        EventKind::Wheel { delta_x, delta_y } => {
            fields.push(text_field("delta_x", decimal_i64(*delta_x)));
            fields.push(text_field("delta_y", decimal_i64(*delta_y)));
        },
    }
    assert(fields_view(fields@) =~= payload_fields(*kind));
    json_object(&fields)
}

/// Converts one raw event into its flat record; name and time are kept as
/// they came.
pub fn normalize(event: RawEvent) -> (r: NormalizedInputEvent)
    ensures
        r.event_type@ == tag_of(event.kind),
        r.name == event.name,
        r.time == event.time,
        r.data@ == payload_text(event.kind),
{
    let event_type = event_tag(&event.kind);
    let data = event_payload(&event.kind);
    NormalizedInputEvent { event_type, name: event.name, time: event.time, data }
}

fn time_record(t: Timestamp) -> (r: String)
    ensures
        r@ == time_text(t),
{
    let mut fields: Vec<(String, String)> = Vec::new();
    fields.push(text_field("secs_since_epoch", decimal_u64(t.secs)));
    fields.push(text_field("nanos_since_epoch", decimal_u64(t.nanos as u64)));
    assert(fields_view(fields@) =~= seq![
        ("secs_since_epoch"@, nat_text(t.secs as nat)),
        ("nanos_since_epoch"@, nat_text(t.nanos as nat)),
    ]);
    json_object(&fields)
}

fn name_record(name: &Option<String>) -> (r: String)
    ensures
        r@ == name_text(*name),
{
    match name {
        Some(n) => json_string(n.as_str()),
        None => String::from_str("null"),
    }
}

impl NormalizedInputEvent {
    /// The record as one line of compact JSON, without the line break.
    pub fn to_json_line(&self) -> (r: String)
        ensures
            r@ == record_text(*self),
    {
        let mut fields: Vec<(String, String)> = Vec::new();
        fields.push(text_field("event_type", json_string(self.event_type.as_str())));
        fields.push(text_field("name", name_record(&self.name)));
        fields.push(text_field("time", time_record(self.time)));
        fields.push(text_field("data", json_string(self.data.as_str())));
        assert(fields_view(fields@) =~= seq![
            ("event_type"@, json_string_of(self.event_type@)),
            ("name"@, name_text(self.name)),
            ("time"@, time_text(self.time)),
            ("data"@, json_string_of(self.data@)),
        ]);
        json_object(&fields)
    }
}

/// The line the listener writes for a raw event: a record for key presses
/// and releases, nothing for pointer motion, buttons and scrolling.
pub fn listener_line(event: RawEvent) -> (r: Option<String>)
    ensures
        r is Some <==> is_keyboard(event.kind),
        r is Some ==> Some(r->Some_0@) == listener_output(event),
{
    match event.kind {
        EventKind::KeyPress(_) | EventKind::KeyRelease(_) => {
            let record = normalize(event);
            Some(record.to_json_line())
        },
        _ => None,
    }
}

/// The six tags an event can carry.
pub open spec fn event_tags() -> Set<Seq<char>> {
    set!["KeyPress"@, "KeyRelease"@, "ButtonPress"@, "ButtonRelease"@, "MouseMove"@, "Wheel"@]
}

/// The keys of a list of object members, in order.
pub open spec fn field_keys(fields: Seq<(Seq<char>, Seq<char>)>) -> Seq<Seq<char>> {
    fields.map_values(|f: (Seq<char>, Seq<char>)| f.0)
}

/// The keys that the `data` object of an event with this tag holds.
pub open spec fn keys_for_tag(tag: Seq<char>) -> Seq<Seq<char>> {
    if tag == "MouseMove"@ {
        seq!["x"@, "y"@]
    } else if tag == "Wheel"@ {
        seq!["delta_x"@, "delta_y"@]
    } else {
        seq!["key"@]
    }
}

/// Every event kind gets one of the six tags, and a `data` object whose keys
/// are exactly those its tag calls for, each once: `key` for key and button
/// events, `x` and `y` for motion, `delta_x` and `delta_y` for scrolling.
pub proof fn lemma_payload_keys_follow_tag(kind: EventKind)
    ensures
        event_tags().contains(tag_of(kind)),
        field_keys(payload_fields(kind)) == keys_for_tag(tag_of(kind)),
        field_keys(payload_fields(kind)).no_duplicates(),
        payload_text(kind) == object_text(payload_fields(kind)),
{
    reveal_strlit("KeyPress");
    reveal_strlit("KeyRelease");
    reveal_strlit("ButtonPress");
    reveal_strlit("ButtonRelease");
    reveal_strlit("MouseMove");
    reveal_strlit("Wheel");
    reveal_strlit("x");
    reveal_strlit("y");
    reveal_strlit("delta_x");
    reveal_strlit("delta_y");
    let keys = field_keys(payload_fields(kind));
    let tag = tag_of(kind);
    assert(tag.len() != "MouseMove"@.len() ==> tag != "MouseMove"@);
    assert(tag.len() != "Wheel"@.len() ==> tag != "Wheel"@);
    match kind {
        EventKind::MouseMove { .. } => {
            assert(keys =~= seq!["x"@, "y"@]);
            assert("x"@ != "y"@) by {
                assert("x"@[0] != "y"@[0]);
            }
        },
        EventKind::Wheel { .. } => {
            assert(keys =~= seq!["delta_x"@, "delta_y"@]);
            assert("delta_x"@ != "delta_y"@) by {
                assert("delta_x"@[6] != "delta_y"@[6]);
            }
        },
        _ => {
            assert(keys =~= seq!["key"@]);
        },
    }
}

/// The lines the listener writes for a stream of raw events, in order.
pub open spec fn emitted_lines(events: Seq<RawEvent>) -> Seq<Seq<char>>
    decreases events.len(),
{
    if events.len() == 0 {
        Seq::empty()
    } else {
        let rest = emitted_lines(events.drop_last());
        match listener_output(events.last()) {
            Some(line) => rest.push(line),
            None => rest,
        }
    }
}

/// A stream made only of pointer motion, button and scroll events makes the
/// listener write nothing.
pub proof fn lemma_pointer_stream_is_silent(events: Seq<RawEvent>)
    requires
        forall|i: int| 0 <= i < events.len() ==> !is_keyboard(#[trigger] events[i].kind),
    ensures
        emitted_lines(events).len() == 0,
    decreases events.len(),
{
    if events.len() > 0 {
        let rest = events.drop_last();
        assert forall|i: int| 0 <= i < rest.len() implies !is_keyboard(#[trigger] rest[i].kind) by {
            assert(rest[i] == events[i]);
        }
        lemma_pointer_stream_is_silent(rest);
        assert(!is_keyboard(events[events.len() - 1].kind));
    }
}

} // verus!
