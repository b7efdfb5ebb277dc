//! The key sequences that synthesize the copy chord on each platform.

use vstd::prelude::*;

verus! {

/// The operating-system family the program was built for.
#[derive(Clone, Copy, Debug, PartialEq, Eq, Structural)]
pub enum Platform {
    MacOs,
    Windows,
    Other,
}

/// A key that takes part in the copy chord.
#[derive(Clone, Copy, Debug, PartialEq, Eq, Structural)]
pub enum ChordKey {
    Control,
    Meta,
    C,
}

/// What happens to a key: held down, pressed and released, or let go.
#[derive(Clone, Copy, Debug, PartialEq, Eq, Structural)]
pub enum KeyDirection {
    Press,
    Click,
    Release,
}

/// One step of a chord sent through the input-simulation handle.
#[derive(Clone, Copy, Debug, PartialEq, Eq, Structural)]
pub struct KeyAction {
    pub key: ChordKey,
    pub direction: KeyDirection,
}

/// One low-level keyboard input: a virtual-key code going down or up, sent
/// after a pause in milliseconds.
#[derive(Clone, Copy, Debug, PartialEq, Eq, Structural)]
pub struct RawKeyInput {
    pub virtual_key: u16,
    pub key_up: bool,
    pub pause_before_ms: u64,
}

/// How the copy chord is synthesized on a platform.
#[derive(Clone, Debug, PartialEq, Eq)]
pub enum CopyPlan {
    /// Key actions for the input-simulation handle.
    Chord(Vec<KeyAction>),
    /// Raw inputs for the system's synthetic-input facility, paced apart.
    RawInputs(Vec<RawKeyInput>),
}

/// The virtual-key code of the Control key.
pub const VK_CONTROL: u16 = 0x11;

/// The virtual-key code of the C key.
pub const VK_C: u16 = 0x43;

/// The pause between two raw inputs, so that none is coalesced or dropped.
pub const INPUT_PAUSE_MS: u64 = 10;

/// The modifier of the copy chord: Meta on macOS, Control elsewhere.
pub open spec fn chord_modifier(platform: Platform) -> ChordKey {
    if platform == Platform::MacOs {
        ChordKey::Meta
    } else {
        ChordKey::Control
    }
}

/// The copy chord for the input-simulation handle.
pub open spec fn chord_actions(platform: Platform) -> Seq<KeyAction> {
    seq![
        KeyAction { key: chord_modifier(platform), direction: KeyDirection::Press },
        KeyAction { key: ChordKey::C, direction: KeyDirection::Click },
        KeyAction { key: chord_modifier(platform), direction: KeyDirection::Release },
    ]
}

/// The copy chord as raw inputs: Control down, C down, C up, Control up.
pub open spec fn raw_copy_inputs() -> Seq<RawKeyInput> {
    seq![
        RawKeyInput { virtual_key: VK_CONTROL, key_up: false, pause_before_ms: 0 },
        RawKeyInput { virtual_key: VK_C, key_up: false, pause_before_ms: INPUT_PAUSE_MS },
        RawKeyInput { virtual_key: VK_C, key_up: true, pause_before_ms: INPUT_PAUSE_MS },
        RawKeyInput { virtual_key: VK_CONTROL, key_up: true, pause_before_ms: INPUT_PAUSE_MS },
    ]
}

fn action(key: ChordKey, direction: KeyDirection) -> (r: KeyAction)
    ensures
        r == (KeyAction { key, direction }),
{
    KeyAction { key, direction }
}

fn raw_input(virtual_key: u16, key_up: bool, pause_before_ms: u64) -> (r: RawKeyInput)
    ensures
        r == (RawKeyInput { virtual_key, key_up, pause_before_ms }),
{
    RawKeyInput { virtual_key, key_up, pause_before_ms }
}

/// The steps that synthesize the copy chord on a platform.
pub fn copy_plan(platform: Platform) -> (r: CopyPlan)
    ensures
        platform == Platform::Windows ==> (r matches CopyPlan::RawInputs(v) && v@
            == raw_copy_inputs()),
        platform != Platform::Windows ==> (r matches CopyPlan::Chord(v) && v@ == chord_actions(
            platform,
        )),
{
    if platform == Platform::Windows {
        let mut v: Vec<RawKeyInput> = Vec::new();
        v.push(raw_input(VK_CONTROL, false, 0));
        v.push(raw_input(VK_C, false, INPUT_PAUSE_MS));
        v.push(raw_input(VK_C, true, INPUT_PAUSE_MS));
        v.push(raw_input(VK_CONTROL, true, INPUT_PAUSE_MS));
        assert(v@ =~= raw_copy_inputs());
        CopyPlan::RawInputs(v)
    } else {
        let modifier = if platform == Platform::MacOs {
            ChordKey::Meta
        } else {
            ChordKey::Control
        };
        let mut v: Vec<KeyAction> = Vec::new();
        v.push(action(modifier, KeyDirection::Press));
        v.push(action(ChordKey::C, KeyDirection::Click));
        v.push(action(modifier, KeyDirection::Release));
        assert(v@ =~= chord_actions(platform));
        CopyPlan::Chord(v)
    }
}

/// The chord holds exactly one press of the modifier (Meta on macOS, Control
/// elsewhere), then one click of C, then one release of that modifier. The
/// raw inputs bring Control down, C down, C up and Control up in that order,
/// each after the first following a pause of the same positive length.
pub proof fn lemma_copy_chord_order(platform: Platform)
    ensures
        chord_actions(platform).len() == 3,
        chord_modifier(platform) == (if platform == Platform::MacOs {
            ChordKey::Meta
        } else {
            ChordKey::Control
        }),
        forall|i: int|
            0 <= i < 3 ==> ((#[trigger] chord_actions(platform)[i]).key == ChordKey::C <==> i == 1),
        forall|i: int|
            0 <= i < 3 ==> ((#[trigger] chord_actions(platform)[i]).key == chord_modifier(platform)
                <==> i != 1),
        chord_actions(platform)[0].direction == KeyDirection::Press,
        chord_actions(platform)[1].direction == KeyDirection::Click,
        chord_actions(platform)[2].direction == KeyDirection::Release,
        raw_copy_inputs().len() == 4,
        forall|i: int|
            0 <= i < 4 ==> ((#[trigger] raw_copy_inputs()[i]).virtual_key == VK_CONTROL <==> (i == 0
                || i == 3)),
        forall|i: int|
            0 <= i < 4 ==> ((#[trigger] raw_copy_inputs()[i]).virtual_key == VK_C <==> (i == 1 || i
                == 2)),
        forall|i: int| 0 <= i < 4 ==> ((#[trigger] raw_copy_inputs()[i]).key_up <==> i >= 2),
        forall|i: int|
            0 < i < 4 ==> (#[trigger] raw_copy_inputs()[i]).pause_before_ms == INPUT_PAUSE_MS,
        INPUT_PAUSE_MS > 0,
{
    let actions = chord_actions(platform);
    assert forall|i: int| 0 <= i < 3 implies (#[trigger] actions[i]).key == ChordKey::C <==> i
        == 1 by {
        if i == 0 {
        } else if i == 1 {
        } else {
        }
    }
    let raw = raw_copy_inputs();
    assert forall|i: int| 0 <= i < 4 implies (#[trigger] raw[i]).virtual_key == VK_CONTROL <==> (i
        == 0 || i == 3) by {
        if i == 0 {
        } else if i == 1 {
        } else if i == 2 {
        } else {
        }
    }
}

} // verus!
