use crate::hardware::{bind, without_key, HardWare, KeyBoardKey, KeyBoardKeySetter};
use crate::midiinput::MidiInput;
use vstd::prelude::*;

verus! {

/// Transpositions run from 0 to 12 half steps.
pub const MAX_TRANSPOSE: usize = 13;

/// Requests from the control surface to the transposer.
pub enum MessageToTransposer {
    /// Bind the next controller that moves to this key
    ChangeActivationMidiKey(KeyBoardKey),
    /// Unbind the controller of this key
    ClearActivationMidiKey(KeyBoardKey),
    /// Set the transposition, in half steps
    TransposeLevel(usize),
}

impl From<KeyBoardKeySetter> for MessageToTransposer {
    fn from(value: KeyBoardKeySetter) -> (r: MessageToTransposer)
        ensures
            r == (match value {
                KeyBoardKeySetter::Bind(k) => MessageToTransposer::ChangeActivationMidiKey(k),
                KeyBoardKeySetter::Clear(k) => MessageToTransposer::ClearActivationMidiKey(k),
            }),
    {
        match value {
            KeyBoardKeySetter::Bind(k) => MessageToTransposer::ChangeActivationMidiKey(k),
            KeyBoardKeySetter::Clear(k) => MessageToTransposer::ClearActivationMidiKey(k),
        }
    }
}

impl vstd::std_specs::convert::FromSpecImpl<KeyBoardKeySetter> for MessageToTransposer {
    open spec fn obeys_from_spec() -> bool {
        true
    }

    open spec fn from_spec(value: KeyBoardKeySetter) -> MessageToTransposer {
        match value {
            KeyBoardKeySetter::Bind(k) => MessageToTransposer::ChangeActivationMidiKey(k),
            KeyBoardKeySetter::Clear(k) => MessageToTransposer::ClearActivationMidiKey(k),
        }
    }
}

/// What the transposer makes of one MIDI event.
#[derive(Clone, Copy, Debug, PartialEq, Eq, Structural)]
pub struct TransposerOutput {
    /// The event to send, or `None` to send the packet on as it came
    pub forward: Option<MidiInput>,
    /// The transposition changed
    pub level_changed: bool,
}

/// A note event moved up by `t` half steps; other events are not moved.
pub open spec fn transposed(e: MidiInput, t: usize) -> Option<MidiInput> {
    match e {
        MidiInput::NoteStart { channel, note_index, timing, velocity } => Some(
            MidiInput::NoteStart { channel, note_index: (note_index + t) as usize, timing, velocity },
        ),
        MidiInput::NoteEnd { channel, note_index, timing, velocity } => Some(
            MidiInput::NoteEnd { channel, note_index: (note_index + t) as usize, timing, velocity },
        ),
        _ => None,
    }
}

/// Note indices that can be moved up by any transposition.
pub open spec fn transposable(e: MidiInput) -> bool {
    match e {
        MidiInput::NoteStart { note_index, .. } => note_index <= usize::MAX - MAX_TRANSPOSE,
        MidiInput::NoteEnd { note_index, .. } => note_index <= usize::MAX - MAX_TRANSPOSE,
        _ => true,
    }
}

/// The transposition one half step higher, around the 13 levels.
pub open spec fn raised(t: int) -> int {
    (t + 1) % MAX_TRANSPOSE as int
}

/// The transposition one half step lower, around the 13 levels.
pub open spec fn lowered(t: int) -> int {
    (t + MAX_TRANSPOSE - 1) % MAX_TRANSPOSE as int
}

/// Lowering then raising, or raising then lowering, the transposition by a
/// half step gives it back.
pub proof fn lemma_down_undoes_up(t: int)
    requires
        0 <= t < MAX_TRANSPOSE,
    ensures
        raised(lowered(t)) == t,
        lowered(raised(t)) == t,
        0 <= raised(t) < MAX_TRANSPOSE,
        0 <= lowered(t) < MAX_TRANSPOSE,
{
}

/// Moves notes up by a number of half steps that controllers raise and lower.
pub struct Transposer {
    /// The number of half steps notes are moved up by
    transpose: usize,
    /// The key that the next controller to move gets bound to
    key_change: Option<KeyBoardKey>,
    keyboard: HardWare,
}

impl Transposer {
    pub closed spec fn transpose_spec(&self) -> usize {
        self.transpose
    }

    pub closed spec fn key_change_spec(&self) -> Option<KeyBoardKey> {
        self.key_change
    }

    pub closed spec fn controls(&self) -> Map<u8, KeyBoardKey> {
        self.keyboard.controls()
    }

    /// The controller table is well formed.
    pub closed spec fn keyboard_wf(&self) -> bool {
        self.keyboard.wf()
    }

    /// The transposition is one of the 13 levels.
    pub open spec fn wf(&self) -> bool {
        &&& self.transpose_spec() < MAX_TRANSPOSE
        &&& self.keyboard_wf()
    }

    /// A transposer that moves nothing and has no binding.
    pub fn new() -> (r: Transposer)
        ensures
            r.wf(),
            r.transpose_spec() == 0,
            r.key_change_spec() == None::<KeyBoardKey>,
            r.controls() == Map::<u8, KeyBoardKey>::empty(),
    {
        Transposer { transpose: 0, key_change: None, keyboard: HardWare::new() }
    }

    pub fn transpose(&self) -> (r: usize)
        ensures
            r == self.transpose_spec(),
    {
        self.transpose
    }

    /// Apply a request from the control surface.
    pub fn apply_message(&mut self, message: MessageToTransposer)
        requires
            old(self).wf(),
        ensures
            final(self).wf(),
            match message {
                MessageToTransposer::ChangeActivationMidiKey(k) => {
                    &&& final(self).key_change_spec() == Some(k)
                    &&& final(self).transpose_spec() == old(self).transpose_spec()
                    &&& final(self).controls() == old(self).controls()
                },
                MessageToTransposer::TransposeLevel(lvl) => {
                    &&& final(self).key_change_spec() == old(self).key_change_spec()
                    &&& final(self).transpose_spec() == lvl % MAX_TRANSPOSE
                    &&& final(self).controls() == old(self).controls()
                },
                MessageToTransposer::ClearActivationMidiKey(k) => {
                    &&& final(self).key_change_spec() == old(self).key_change_spec()
                    &&& final(self).transpose_spec() == old(self).transpose_spec()
                    &&& final(self).controls() == without_key(old(self).controls(), k)
                },
            },
    {
        match message {
            MessageToTransposer::ChangeActivationMidiKey(key) => self.key_change = Some(key),
            MessageToTransposer::TransposeLevel(lvl) => self.transpose = lvl % MAX_TRANSPOSE,
            MessageToTransposer::ClearActivationMidiKey(key) => self.keyboard.clear_key(key),
        }
    }

    /// Act on one MIDI event. A controller is first bound to the key waiting
    /// for one, if any; then the controller bound to `TransposeUp` raises the
    /// transposition by one half step and the one bound to `TransposeDown`
    /// lowers it by one, both around the 13 levels. Notes are moved up by the
    /// transposition; every other event goes on as it came.
    pub fn handle_midi(&mut self, event: MidiInput) -> (r: TransposerOutput)
        requires
            old(self).wf(),
            transposable(event),
        ensures
            final(self).wf(),
            match event {
                MidiInput::Controller { control, value, .. } => {
                    let controls = match old(self).key_change_spec() {
                        Some(k) => bind(old(self).controls(), k, control),
                        None => old(self).controls(),
                    };
                    let t = old(self).transpose_spec();
                    let up = value > 0 && controls.contains_key(control) && controls[control]
                        == KeyBoardKey::TransposeUp;
                    let down = value > 0 && controls.contains_key(control) && controls[control]
                        == KeyBoardKey::TransposeDown;
                    &&& final(self).controls() == controls
                    &&& final(self).key_change_spec() == None::<KeyBoardKey>
                    &&& final(self).transpose_spec() == if up {
                        raised(t as int)
                    } else if down {
                        lowered(t as int)
                    } else {
                        t as int
                    }
                    &&& r == TransposerOutput { forward: None, level_changed: up || down }
                },
                _ => {
                    &&& final(self).controls() == old(self).controls()
                    &&& final(self).key_change_spec() == old(self).key_change_spec()
                    &&& final(self).transpose_spec() == old(self).transpose_spec()
                    &&& r == TransposerOutput {
                        forward: transposed(event, old(self).transpose_spec()),
                        level_changed: false,
                    }
                },
            },
    {
        match event {
            MidiInput::Controller { control, value, .. } => {
                if let Some(key) = self.key_change {
                    self.keyboard.update_key(key, control);
                    self.key_change = None;
                }
                let key = self.keyboard.get_keyboard_key(control);
                if key == Some(KeyBoardKey::TransposeUp) && value > 0 {
                    self.transpose = (self.transpose + 1) % MAX_TRANSPOSE;
                    TransposerOutput { forward: None, level_changed: true }
                } else if key == Some(KeyBoardKey::TransposeDown) && value > 0 {
                    self.transpose = (self.transpose + MAX_TRANSPOSE - 1) % MAX_TRANSPOSE;
                    TransposerOutput { forward: None, level_changed: true }
                } else {
                    TransposerOutput { forward: None, level_changed: false }
                }
            },
            MidiInput::NoteStart { channel, note_index, timing, velocity } => TransposerOutput {
                forward: Some(
                    MidiInput::NoteStart {
                        channel,
                        note_index: note_index + self.transpose,
                        timing,
                        velocity,
                    },
                ),
                level_changed: false,
            },
            MidiInput::NoteEnd { channel, note_index, timing, velocity } => TransposerOutput {
                forward: Some(
                    MidiInput::NoteEnd {
                        channel,
                        note_index: note_index + self.transpose,
                        timing,
                        velocity,
                    },
                ),
                level_changed: false,
            },
            _ => TransposerOutput { forward: None, level_changed: false },
        }
    }
}

} // verus!
