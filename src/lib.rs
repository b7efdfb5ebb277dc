//! Normalization of global input events into one-line JSON records, command
//! dispatch, and the key sequences that synthesize the copy chord.

pub mod command;
pub mod copy_chord;
pub mod event;
pub mod json;

pub use command::{parse_command, same_text, Command};
pub use copy_chord::{
    copy_plan, ChordKey, CopyPlan, KeyAction, KeyDirection, Platform, RawKeyInput, INPUT_PAUSE_MS,
    VK_C, VK_CONTROL,
};
pub use event::{
    event_payload, listener_line, normalize, EventKind, NormalizedInputEvent, RawEvent, Timestamp,
};
pub use json::{decimal_i64, decimal_u64, json_object};
