use crate::configuration::{position_value, UsizeValueInRange};
use crate::hardware::{bind, without_key, HardWare, KeyBoardKey, KeyBoardKeySetter};
use crate::midiinput::MidiInput;
use vstd::prelude::*;

verus! {

/// Lengths, in frames, of the three phases of a percussive envelope: the
/// amplitude rises during `attack`, holds during `duration` and falls to
/// silence during `decay`.
#[derive(Clone, Copy, Debug, PartialEq, Eq, Structural)]
pub struct EnvelopeShape {
    pub attack: usize,
    pub duration: usize,
    pub decay: usize,
}

/// The number of frames a voice sounds.
pub open spec fn total_frames(s: EnvelopeShape) -> int {
    s.attack + s.duration + s.decay
}

/// The amplitude, as a fraction `(numerator, denominator)` of the volume, of a
/// voice with `left` frames still to play.
pub open spec fn envelope_gain(s: EnvelopeShape, left: int) -> (int, int) {
    if left == 0 {
        (0, 1)
    } else if left > s.decay + s.duration {
        (total_frames(s) - left, s.attack as int)
    } else if left > s.decay {
        (1, 1)
    } else {
        (left, s.decay as int)
    }
}

impl EnvelopeShape {
    /// The number of frames a voice sounds.
    pub fn total(&self) -> (r: usize)
        requires
            total_frames(*self) <= usize::MAX,
        ensures
            r == total_frames(*self),
    {
        self.attack + self.duration + self.decay
    }

    /// The amplitude, as a fraction of the volume, with `left` frames to play.
    pub fn gain(&self, left: usize) -> (r: (usize, usize))
        requires
            total_frames(*self) <= usize::MAX,
            left <= total_frames(*self),
        ensures
            r.1 > 0,
            (r.0 as int, r.1 as int) == envelope_gain(*self, left as int),
    {
        if left == 0 {
            (0, 1)
        } else if left > self.decay + self.duration {
            (self.total() - left, self.attack)
        } else if left > self.decay {
            (1, 1)
        } else {
            (left, self.decay)
        }
    }
}

/// A voice is silent when triggered, at full volume when its attack ends, and
/// silent again when it has no frame left.
pub proof fn lemma_envelope_ends(s: EnvelopeShape)
    requires
        s.attack > 0,
        s.decay + s.duration > 0,
    ensures
        envelope_gain(s, total_frames(s)).0 == 0,
        envelope_gain(s, s.decay + s.duration).0 == envelope_gain(s, s.decay + s.duration).1,
        envelope_gain(s, 0).0 == 0,
{
}

/// One sounding or free note of a percussive instrument.
#[derive(Clone, Copy, Debug, PartialEq, Eq, Structural)]
pub struct Voice {
    /// Frames still to play; 0 when the voice is free.
    pub frames_left: usize,
    /// The velocity byte of the note (velocity = byte / 256).
    pub velocity: u8,
    /// The envelope in force when the note was triggered.
    pub shape: EnvelopeShape,
}

/// A voice counts down within its own envelope.
pub open spec fn voice_wf(v: Voice) -> bool {
    &&& total_frames(v.shape) <= usize::MAX
    &&& v.frames_left <= total_frames(v.shape)
}

/// `i` is the slot a new note takes: the first free one, or one past the end.
pub open spec fn is_first_free(s: Seq<Voice>, i: int) -> bool {
    &&& 0 <= i <= s.len()
    &&& forall|j: int| 0 <= j < i ==> #[trigger] s[j].frames_left != 0
    &&& i < s.len() ==> s[i].frames_left == 0
}

/// The voices after `v` is put in slot `i`.
pub open spec fn placed_at(s: Seq<Voice>, i: int, v: Voice) -> Seq<Voice> {
    if i < s.len() {
        s.update(i, v)
    } else {
        s.push(v)
    }
}

/// A voice one frame later.
pub open spec fn advanced(v: Voice) -> Voice {
    Voice { frames_left: if v.frames_left > 0 { (v.frames_left - 1) as usize } else { 0 }, ..v }
}

/// What the mixer needs of a sounding voice for one frame.
#[derive(Clone, Copy, Debug, PartialEq, Eq, Structural)]
pub struct VoiceFrame {
    /// Frames played since the note was triggered
    pub elapsed: usize,
    /// Frames the note lasts
    pub total: usize,
    /// The velocity byte of the note
    pub velocity: u8,
    /// The amplitude is `gain_num / gain_den` of the volume
    pub gain_num: usize,
    pub gain_den: usize,
}

/// The voices of a percussive instrument. The pool only grows.
pub struct VoicePool {
    voices: Vec<Voice>,
}

/// The number of voices a pool starts with.
pub const INITIAL_VOICES: usize = 128;

impl VoicePool {
    pub closed spec fn view(&self) -> Seq<Voice> {
        self.voices@
    }

    pub open spec fn wf(&self) -> bool {
        forall|i: int| 0 <= i < self.view().len() ==> voice_wf(#[trigger] self.view()[i])
    }

    /// A pool of free voices.
    pub fn new() -> (r: VoicePool)
        ensures
            r.wf(),
            r.view().len() == INITIAL_VOICES,
            forall|i: int| 0 <= i < r.view().len() ==> #[trigger] r.view()[i].frames_left == 0,
    {
        let mut voices: Vec<Voice> = Vec::with_capacity(INITIAL_VOICES);
        let silent = Voice {
            frames_left: 0,
            velocity: 0,
            shape: EnvelopeShape { attack: 0, duration: 0, decay: 0 },
        };
        let mut i: usize = 0;
        while i < INITIAL_VOICES
            invariant
                i <= INITIAL_VOICES,
                voices@.len() == i,
                forall|j: int| 0 <= j < i ==> #[trigger] voices@[j] == silent,
            decreases INITIAL_VOICES - i,
        {
            voices.push(silent);
            i = i + 1;
        }
        VoicePool { voices }
    }

    pub fn len(&self) -> (r: usize)
        ensures
            r == self.view().len(),
    {
        self.voices.len()
    }

    /// Start a note in the first free slot, or in a new slot when none is free.
    pub fn trigger(&mut self, velocity: u8, shape: EnvelopeShape) -> (slot: usize)
        requires
            old(self).wf(),
            total_frames(shape) <= usize::MAX,
        ensures
            final(self).wf(),
            is_first_free(old(self).view(), slot as int),
            final(self).view() == placed_at(
                old(self).view(),
                slot as int,
                Voice { frames_left: total_frames(shape) as usize, velocity, shape },
            ),
    {
        let voice = Voice { frames_left: shape.total(), velocity, shape };
        let mut index: usize = 0;
        while index < self.voices.len()
            invariant
                self.view() == old(self).view(),
                old(self).wf(),
                voice == (Voice { frames_left: total_frames(shape) as usize, velocity, shape }),
                voice_wf(voice),
                index <= self.view().len(),
                forall|j: int| 0 <= j < index ==> #[trigger] self.view()[j].frames_left != 0,
            decreases self.view().len() - index,
        {
            if self.voices[index].frames_left == 0 {
                self.voices.set(index, voice);
                proof {
                    assert(self.wf()) by {
                        assert forall|i: int| 0 <= i < self.view().len() implies voice_wf(
                            #[trigger] self.view()[i],
                        ) by {
                            if i != index {
                                assert(self.view()[i] == old(self).view()[i]);
                            }
                        }
                    }
                }
                return index;
            }
            index = index + 1;
        }
        self.voices.push(voice);
        proof {
            assert(self.wf()) by {
                assert forall|i: int| 0 <= i < self.view().len() implies voice_wf(
                    #[trigger] self.view()[i],
                ) by {
                    if i < old(self).view().len() {
                        assert(self.view()[i] == old(self).view()[i]);
                    }
                }
            }
        }
        index
    }

    /// What the voice in `slot` plays this frame; `None` when it is free.
    pub fn frame(&self, slot: usize) -> (r: Option<VoiceFrame>)
        requires
            self.wf(),
            slot < self.view().len(),
        ensures
            ({
                let v = self.view()[slot as int];
                match r {
                    None => v.frames_left == 0,
                    Some(f) => {
                        &&& v.frames_left > 0
                        &&& f.total == total_frames(v.shape)
                        &&& f.elapsed == total_frames(v.shape) - v.frames_left
                        &&& f.velocity == v.velocity
                        &&& f.gain_den > 0
                        &&& (f.gain_num as int, f.gain_den as int) == envelope_gain(
                            v.shape,
                            v.frames_left as int,
                        )
                    },
                }
            }),
    {
        let v = self.voices[slot];
        proof {
            assert(voice_wf(self.view()[slot as int]));
        }
        if v.frames_left == 0 {
            return None;
        }
        let total = v.shape.total();
        let (gain_num, gain_den) = v.shape.gain(v.frames_left);
        Some(
            VoiceFrame {
                elapsed: total - v.frames_left,
                total,
                velocity: v.velocity,
                gain_num,
                gain_den,
            },
        )
    }

    /// Move every sounding voice one frame on; a voice that reaches 0 is free.
    pub fn advance(&mut self)
        requires
            old(self).wf(),
        ensures
            final(self).wf(),
            final(self).view().len() == old(self).view().len(),
            forall|i: int|
                0 <= i < old(self).view().len() ==> #[trigger] final(self).view()[i] == advanced(
                    old(self).view()[i],
                ),
    {
        let mut i: usize = 0;
        while i < self.voices.len()
            invariant
                i <= self.view().len(),
                self.view().len() == old(self).view().len(),
                forall|j: int| 0 <= j < i ==> #[trigger] self.view()[j] == advanced(old(self).view()[j]),
                forall|j: int| i <= j < self.view().len() ==> #[trigger] self.view()[j] == old(self).view()[j],
                old(self).wf(),
            decreases self.view().len() - i,
        {
            let v = self.voices[i];
            if v.frames_left > 0 {
                self.voices.set(i, Voice { frames_left: v.frames_left - 1, ..v });
            }
            i = i + 1;
        }
        proof {
            assert forall|j: int| 0 <= j < self.view().len() implies voice_wf(
                #[trigger] self.view()[j],
            ) by {
                assert(voice_wf(old(self).view()[j]));
            }
        }
    }
}

/// A second note struck while the first still sounds takes another slot, and
/// both sound.
pub proof fn lemma_second_note_keeps_first(
    s: Seq<Voice>,
    first: Voice,
    second: Voice,
    a: int,
    b: int,
)
    requires
        first.frames_left > 0,
        is_first_free(s, a),
        is_first_free(placed_at(s, a, first), b),
    ensures
        a != b,
        placed_at(placed_at(s, a, first), b, second)[a] == first,
        placed_at(placed_at(s, a, first), b, second)[b] == second,
{
    let s1 = placed_at(s, a, first);
    assert(s1[a] == first);
    if b < s1.len() {
        assert(s1[b].frames_left == 0);
    }
}

/// The whole numbers of a percussive instrument's configuration: the lengths
/// of its envelope's phases, each settable by a controller within a range.
pub struct EnvelopeConfig {
    /// The number of frames needed to reach full volume
    attack: UsizeValueInRange,
    /// The number of frames to fall to silence
    decay: UsizeValueInRange,
    /// The number of frames at full volume
    duration: UsizeValueInRange,
}

/// A value whose range ends low enough for three of them to add up in a
/// `usize`, whatever a controller sets them to.
pub open spec fn bounded_value(v: &UsizeValueInRange) -> bool {
    &&& v.wf()
    &&& v.end_spec() <= usize::MAX / 4
}

/// Which value a key sets: the first of attack, decay and duration bound to it.
pub open spec fn target_of(c: &EnvelopeConfig, key: KeyBoardKey) -> int {
    if c.attack_spec().key_spec() == key {
        0
    } else if c.decay_spec().key_spec() == key {
        1
    } else if c.duration_spec().key_spec() == key {
        2
    } else {
        3
    }
}

/// The value of `v` once the controller position `value` is applied, when `v` is the target.
pub open spec fn set_if(v: &UsizeValueInRange, target: bool, value: u8) -> usize {
    if target {
        position_value(v.start_spec(), v.end_spec(), value)
    } else {
        v.value_spec()
    }
}

/// Two configurations with the same ranges, names and keys.
pub open spec fn same_layout(a: &EnvelopeConfig, b: &EnvelopeConfig) -> bool {
    &&& a.attack_spec().start_spec() == b.attack_spec().start_spec()
    &&& a.attack_spec().end_spec() == b.attack_spec().end_spec()
    &&& a.attack_spec().key_spec() == b.attack_spec().key_spec()
    &&& a.decay_spec().start_spec() == b.decay_spec().start_spec()
    &&& a.decay_spec().end_spec() == b.decay_spec().end_spec()
    &&& a.decay_spec().key_spec() == b.decay_spec().key_spec()
    &&& a.duration_spec().start_spec() == b.duration_spec().start_spec()
    &&& a.duration_spec().end_spec() == b.duration_spec().end_spec()
    &&& a.duration_spec().key_spec() == b.duration_spec().key_spec()
}

/// The envelope once the controller position `value` is applied for `key`.
pub open spec fn applied_shape(c: &EnvelopeConfig, key: KeyBoardKey, value: u8) -> EnvelopeShape {
    EnvelopeShape {
        attack: set_if(&c.attack_spec(), target_of(c, key) == 0, value),
        decay: set_if(&c.decay_spec(), target_of(c, key) == 1, value),
        duration: set_if(&c.duration_spec(), target_of(c, key) == 2, value),
    }
}

/// `None` when no value is bound to `key`, else whether the value changed.
pub open spec fn midi_outcome(c: &EnvelopeConfig, key: KeyBoardKey, value: u8) -> Option<bool> {
    if target_of(c, key) == 3 {
        None
    } else {
        Some(applied_shape(c, key, value) != c.shape_spec())
    }
}

impl EnvelopeConfig {
    pub closed spec fn attack_spec(&self) -> UsizeValueInRange {
        self.attack
    }

    pub closed spec fn decay_spec(&self) -> UsizeValueInRange {
        self.decay
    }

    pub closed spec fn duration_spec(&self) -> UsizeValueInRange {
        self.duration
    }

    /// The envelope the configuration describes.
    pub open spec fn shape_spec(&self) -> EnvelopeShape {
        EnvelopeShape {
            attack: self.attack_spec().value_spec(),
            duration: self.duration_spec().value_spec(),
            decay: self.decay_spec().value_spec(),
        }
    }

    pub open spec fn wf(&self) -> bool {
        &&& bounded_value(&self.attack_spec())
        &&& bounded_value(&self.decay_spec())
        &&& bounded_value(&self.duration_spec())
    }

    /// A configuration from its three values.
    pub fn new(attack: UsizeValueInRange, decay: UsizeValueInRange, duration: UsizeValueInRange) -> (r:
        EnvelopeConfig)
        requires
            bounded_value(&attack),
            bounded_value(&decay),
            bounded_value(&duration),
        ensures
            r.wf(),
            r.attack_spec() == attack,
            r.decay_spec() == decay,
            r.duration_spec() == duration,
    {
        EnvelopeConfig { attack, decay, duration }
    }

    /// The defaults of the kick drum at `rate` frames per second: 50 frames of
    /// attack and of decay, and a twentieth of a second at full volume.
    pub fn kick(rate: usize) -> (r: EnvelopeConfig)
        requires
            rate <= usize::MAX / 64,
        ensures
            r.wf(),
            r.shape_spec() == (EnvelopeShape { attack: 50, duration: rate / 20, decay: 50 }),
            r.attack_spec().key_spec() == KeyBoardKey::FadeInDuration,
            r.decay_spec().key_spec() == KeyBoardKey::FadeOutDuration,
            r.duration_spec().key_spec() == KeyBoardKey::Duration,
            r.duration_spec().end_spec() == 2 * rate,
    {
        EnvelopeConfig {
            attack: UsizeValueInRange::new(50, 0, 128, "attack", KeyBoardKey::FadeInDuration),
            decay: UsizeValueInRange::new(50, 0, 128, "decay", KeyBoardKey::FadeOutDuration),
            duration: UsizeValueInRange::new(rate / 20, 0, 2 * rate, "duration", KeyBoardKey::Duration),
        }
    }

    /// The defaults of the snare drum at `rate` frames per second: 50 frames of
    /// attack and of decay, and a twentieth of a second at full volume.
    pub fn snare(rate: usize) -> (r: EnvelopeConfig)
        requires
            rate <= usize::MAX / 64,
        ensures
            r.wf(),
            r.shape_spec() == (EnvelopeShape { attack: 50, duration: rate / 20, decay: 50 }),
            r.attack_spec().key_spec() == KeyBoardKey::FadeInDuration,
            r.decay_spec().key_spec() == KeyBoardKey::FadeOutDuration,
            r.duration_spec().key_spec() == KeyBoardKey::Duration,
            r.duration_spec().end_spec() == 5 * rate,
    {
        EnvelopeConfig {
            attack: UsizeValueInRange::new(50, 0, 128, "attack", KeyBoardKey::FadeInDuration),
            decay: UsizeValueInRange::new(50, 0, 128, "decay", KeyBoardKey::FadeOutDuration),
            duration: UsizeValueInRange::new(rate / 20, 0, 5 * rate, "duration", KeyBoardKey::Duration),
        }
    }

    pub fn attack(&self) -> (r: &UsizeValueInRange)
        ensures
            *r == self.attack_spec(),
    {
        &self.attack
    }

    pub fn decay(&self) -> (r: &UsizeValueInRange)
        ensures
            *r == self.decay_spec(),
    {
        &self.decay
    }

    pub fn duration(&self) -> (r: &UsizeValueInRange)
        ensures
            *r == self.duration_spec(),
    {
        &self.duration
    }

    /// The envelope the configuration describes.
    pub fn shape(&self) -> (r: EnvelopeShape)
        requires
            self.wf(),
        ensures
            r == self.shape_spec(),
            total_frames(r) <= usize::MAX,
    {
        EnvelopeShape {
            attack: self.attack.get_value(),
            duration: self.duration.get_value(),
            decay: self.decay.get_value(),
        }
    }

    /// Apply the controller position `value` to the value bound to `key`.
    /// Returns `None` when no value is bound to it, else whether it changed.
    pub fn apply_midi(&mut self, key: KeyBoardKey, value: u8) -> (r: Option<bool>)
        requires
            old(self).wf(),
        ensures
            final(self).wf(),
            same_layout(final(self), old(self)),
            final(self).shape_spec() == applied_shape(old(self), key, value),
            r == midi_outcome(old(self), key, value),
    {
        if self.attack.get_keyboard_key() == key {
            Some(self.attack.from_midi_value(value))
        } else if self.decay.get_keyboard_key() == key {
            Some(self.decay.from_midi_value(value))
        } else if self.duration.get_keyboard_key() == key {
            Some(self.duration.from_midi_value(value))
        } else {
            None
        }
    }
}

/// Requests from the control surface to a percussive instrument.
pub enum DrumMessage {
    /// Bind the next controller that moves to this key
    ChangeActivationMidiKey(KeyBoardKey),
    /// Unbind the controller of this key
    ClearActivationMidiKey(KeyBoardKey),
    /// Replace the configuration
    NewConfig(EnvelopeConfig),
}

impl From<KeyBoardKeySetter> for DrumMessage {
    fn from(value: KeyBoardKeySetter) -> (r: DrumMessage)
        ensures
            r == (match value {
                KeyBoardKeySetter::Bind(k) => DrumMessage::ChangeActivationMidiKey(k),
                KeyBoardKeySetter::Clear(k) => DrumMessage::ClearActivationMidiKey(k),
            }),
    {
        match value {
            KeyBoardKeySetter::Bind(k) => DrumMessage::ChangeActivationMidiKey(k),
            KeyBoardKeySetter::Clear(k) => DrumMessage::ClearActivationMidiKey(k),
        }
    }
}

impl vstd::std_specs::convert::FromSpecImpl<KeyBoardKeySetter> for DrumMessage {
    open spec fn obeys_from_spec() -> bool {
        true
    }

    open spec fn from_spec(value: KeyBoardKeySetter) -> DrumMessage {
        match value {
            KeyBoardKeySetter::Bind(k) => DrumMessage::ChangeActivationMidiKey(k),
            KeyBoardKeySetter::Clear(k) => DrumMessage::ClearActivationMidiKey(k),
        }
    }
}

/// What a MIDI event asks of the rest of the instrument.
#[derive(Clone, Copy, Debug, PartialEq, Eq, Structural)]
pub enum DrumNotice {
    Nothing,
    /// The envelope configuration changed: show it
    ConfigChanged,
    /// A controller bound to a key that the envelope does not hold moved
    OtherControl(KeyBoardKey, u8),
}

/// The decisions of a percussive instrument: its voices, its controller
/// bindings and its envelope configuration.
pub struct DrumEngine {
    voices: VoicePool,
    /// The key that the next controller to move gets bound to
    key_change: Option<KeyBoardKey>,
    keyboard: HardWare,
    conf: EnvelopeConfig,
}

impl DrumEngine {
    pub closed spec fn voices_spec(&self) -> Seq<Voice> {
        self.voices.view()
    }

    pub closed spec fn key_change_spec(&self) -> Option<KeyBoardKey> {
        self.key_change
    }

    pub closed spec fn controls(&self) -> Map<u8, KeyBoardKey> {
        self.keyboard.controls()
    }

    pub closed spec fn conf_spec(&self) -> EnvelopeConfig {
        self.conf
    }

    /// The controller table is well formed.
    pub closed spec fn keyboard_wf(&self) -> bool {
        self.keyboard.wf()
    }

    /// Every voice counts down within its own envelope.
    pub closed spec fn voices_wf(&self) -> bool {
        self.voices.wf()
    }

    /// The voices and the controller table are well formed, and the
    /// configuration is valid.
    pub open spec fn wf(&self) -> bool {
        &&& self.voices_wf()
        &&& self.keyboard_wf()
        &&& self.conf_spec().wf()
    }

    /// Every voice of a well-formed instrument counts down within its envelope.
    pub proof fn lemma_voices_wf(&self)
        requires
            self.wf(),
        ensures
            forall|i: int|
                0 <= i < self.voices_spec().len() ==> voice_wf(#[trigger] self.voices_spec()[i]),
    {
    }

    /// An instrument with free voices, no binding and the configuration `conf`.
    pub fn new(conf: EnvelopeConfig) -> (r: DrumEngine)
        requires
            conf.wf(),
        ensures
            r.wf(),
            r.voices_spec().len() == INITIAL_VOICES,
            forall|i: int| 0 <= i < r.voices_spec().len() ==> #[trigger] r.voices_spec()[i].frames_left == 0,
            r.key_change_spec() == None::<KeyBoardKey>,
            r.controls() == Map::<u8, KeyBoardKey>::empty(),
            r.conf_spec() == conf,
    {
        DrumEngine { voices: VoicePool::new(), key_change: None, keyboard: HardWare::new(), conf }
    }

    pub fn config(&self) -> (r: &EnvelopeConfig)
        ensures
            *r == self.conf_spec(),
    {
        &self.conf
    }

    /// Apply a request from the control surface.
    pub fn apply_message(&mut self, message: DrumMessage)
        requires
            old(self).wf(),
            message is NewConfig ==> message->NewConfig_0.wf(),
        ensures
            final(self).wf(),
            final(self).voices_spec() == old(self).voices_spec(),
            match message {
                DrumMessage::ChangeActivationMidiKey(k) => {
                    &&& final(self).key_change_spec() == Some(k)
                    &&& final(self).controls() == old(self).controls()
                    &&& final(self).conf_spec() == old(self).conf_spec()
                },
                DrumMessage::ClearActivationMidiKey(k) => {
                    &&& final(self).key_change_spec() == old(self).key_change_spec()
                    &&& final(self).controls() == without_key(old(self).controls(), k)
                    &&& final(self).conf_spec() == old(self).conf_spec()
                },
                DrumMessage::NewConfig(c) => {
                    &&& final(self).key_change_spec() == old(self).key_change_spec()
                    &&& final(self).controls() == old(self).controls()
                    &&& final(self).conf_spec() == c
                },
            },
    {
        match message {
            DrumMessage::ChangeActivationMidiKey(k) => self.key_change = Some(k),
            DrumMessage::ClearActivationMidiKey(k) => self.keyboard.clear_key(k),
            DrumMessage::NewConfig(c) => self.conf = c,
        }
    }

    /// Act on one MIDI event: a controller sets the value bound to it and is
    /// bound to the key waiting for a controller, if any; a note starts a voice
    /// with the envelope in force now.
    pub fn handle_midi(&mut self, event: MidiInput) -> (r: DrumNotice)
        requires
            old(self).wf(),
        ensures
            final(self).wf(),
            match event {
                MidiInput::Controller { control, value, .. } => {
                    &&& final(self).voices_spec() == old(self).voices_spec()
                    &&& final(self).key_change_spec() == None::<KeyBoardKey>
                    &&& final(self).controls() == match old(self).key_change_spec() {
                        Some(k) => bind(old(self).controls(), k, control),
                        None => old(self).controls(),
                    }
                    &&& same_layout(&final(self).conf_spec(), &old(self).conf_spec())
                    &&& if old(self).controls().contains_key(control) {
                        let key = old(self).controls()[control];
                        &&& final(self).conf_spec().shape_spec() == applied_shape(
                            &old(self).conf_spec(),
                            key,
                            value,
                        )
                        &&& r == match midi_outcome(&old(self).conf_spec(), key, value) {
                            Some(true) => DrumNotice::ConfigChanged,
                            Some(false) => DrumNotice::Nothing,
                            None => DrumNotice::OtherControl(key, value),
                        }
                    } else {
                        &&& final(self).conf_spec() == old(self).conf_spec()
                        &&& r == DrumNotice::Nothing
                    }
                },
                MidiInput::NoteStart { velocity, .. } => {
                    &&& r == DrumNotice::Nothing
                    &&& final(self).key_change_spec() == old(self).key_change_spec()
                    &&& final(self).controls() == old(self).controls()
                    &&& final(self).conf_spec() == old(self).conf_spec()
                    &&& exists|slot: int|
                        is_first_free(old(self).voices_spec(), slot) && final(self).voices_spec()
                            == placed_at(
                            old(self).voices_spec(),
                            slot,
                            Voice {
                                frames_left: total_frames(old(self).conf_spec().shape_spec()) as usize,
                                velocity,
                                shape: old(self).conf_spec().shape_spec(),
                            },
                        )
                },
                _ => {
                    &&& r == DrumNotice::Nothing
                    &&& final(self).voices_spec() == old(self).voices_spec()
                    &&& final(self).key_change_spec() == old(self).key_change_spec()
                    &&& final(self).controls() == old(self).controls()
                    &&& final(self).conf_spec() == old(self).conf_spec()
                },
            },
    {
        match event {
            MidiInput::Controller { control, value, .. } => {
                let mut notice = DrumNotice::Nothing;
                if let Some(key) = self.keyboard.get_keyboard_key(control) {
                    notice =
                    match self.conf.apply_midi(key, value) {
                        Some(true) => DrumNotice::ConfigChanged,
                        Some(false) => DrumNotice::Nothing,
                        None => DrumNotice::OtherControl(key, value),
                    };
                }
                if let Some(k) = self.key_change {
                    self.keyboard.update_key(k, control);
                    self.key_change = None;
                }
                notice
            },
            MidiInput::NoteStart { velocity, .. } => {
                let shape = self.conf.shape();
                let slot = self.voices.trigger(velocity, shape);
                proof {
                    assert(is_first_free(old(self).voices_spec(), slot as int));
                }
                DrumNotice::Nothing
            },
            _ => DrumNotice::Nothing,
        }
    }

    pub fn voice_count(&self) -> (r: usize)
        ensures
            r == self.voices_spec().len(),
    {
        self.voices.len()
    }

    /// What the voice in `slot` plays this frame; see `VoicePool::frame`.
    pub fn voice_frame(&self, slot: usize) -> (r: Option<VoiceFrame>)
        requires
            self.wf(),
            slot < self.voices_spec().len(),
        ensures
            r == (if self.voices_spec()[slot as int].frames_left == 0 {
                None::<VoiceFrame>
            } else {
                let v = self.voices_spec()[slot as int];
                let g = envelope_gain(v.shape, v.frames_left as int);
                Some(
                    VoiceFrame {
                        elapsed: (total_frames(v.shape) - v.frames_left) as usize,
                        total: total_frames(v.shape) as usize,
                        velocity: v.velocity,
                        gain_num: g.0 as usize,
                        gain_den: g.1 as usize,
                    },
                )
            }),
    {
        self.voices.frame(slot)
    }

    /// Move every sounding voice one frame on.
    pub fn advance(&mut self)
        requires
            old(self).wf(),
        ensures
            final(self).wf(),
            final(self).voices_spec().len() == old(self).voices_spec().len(),
            forall|i: int|
                0 <= i < old(self).voices_spec().len() ==> #[trigger] final(self).voices_spec()[i]
                    == advanced(old(self).voices_spec()[i]),
            final(self).key_change_spec() == old(self).key_change_spec(),
            final(self).controls() == old(self).controls(),
            final(self).conf_spec() == old(self).conf_spec(),
    {
        self.voices.advance();
    }
}

} // verus!
