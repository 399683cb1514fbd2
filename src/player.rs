use crate::hardware::{bind, without_key, HardWare, KeyBoardKey, KeyBoardKeySetter};
use crate::midiinput::MidiInput;
use crate::wavetype::{next_wave, WaveType};
use vstd::prelude::*;

verus! {

/// Twelve octaves of twelve notes.
pub const NB_NOTES: usize = 144;

/// The number of overtones stacked on each note.
pub const NB_OVERTONES: usize = 9;

/// The fade level that stands for full volume; fade levels run from 0 to it.
pub const FADE_FULL: u32 = 0x100_0000;

/// The fade durations count in fortieths of a second.
pub const FADE_DURATION_UNITS_PER_SECOND: u64 = 40;

/// The settings of the additive player, in the units controllers set them in.
#[derive(Clone, Debug, PartialEq)]
pub struct PlayerConfig {
    /// The wave type of every overtone
    pub wave: WaveType,
    /// The weight of each overtone, in 128ths
    pub overtone: Vec<u8>,
    /// How long a note takes to reach full volume, in fortieths of a second
    pub fade_in_duration: u16,
    /// The exponent of the fade in curve, as a controller position
    pub fade_in_shape: u8,
    /// How long a released note takes to fall silent, in fortieths of a second
    pub fade_out_duration: u16,
    /// The exponent of the fade out curve, as a controller position
    pub fade_out_shape: u8,
    /// The output gain, in 127ths
    pub gain: u16,
    /// The modulation depth, as a controller position
    pub modulation: u8,
    /// The modulation rate, in quarters
    pub mod_speed: u8,
    /// The modulation intensity, in 128ths
    pub mod_intensity: u8,
}

/// The settings of the additive player as plain values.
#[verifier::ext_equal]
pub struct ConfigView {
    pub wave: WaveType,
    pub overtone: Seq<u8>,
    pub fade_in_duration: u16,
    pub fade_in_shape: u8,
    pub fade_out_duration: u16,
    pub fade_out_shape: u8,
    pub gain: u16,
    pub modulation: u8,
    pub mod_speed: u8,
    pub mod_intensity: u8,
}

impl View for PlayerConfig {
    type V = ConfigView;

    open spec fn view(&self) -> ConfigView {
        ConfigView {
            wave: self.wave,
            overtone: self.overtone@,
            fade_in_duration: self.fade_in_duration,
            fade_in_shape: self.fade_in_shape,
            fade_out_duration: self.fade_out_duration,
            fade_out_shape: self.fade_out_shape,
            gain: self.gain,
            modulation: self.modulation,
            mod_speed: self.mod_speed,
            mod_intensity: self.mod_intensity,
        }
    }
}

/// A fade duration from a controller position: one to 256 fortieths of a second.
pub open spec fn duration_of(value: u8) -> u16 {
    (1 + value) as u16
}

/// A gain from a controller position, in 127ths: eight 127ths per step.
pub open spec fn gain_of(value: u8) -> u16 {
    ((1 + value) * 8) as u16
}

/// The settings after the controller bound to `key` moves to `value`.
pub open spec fn with_control(c: ConfigView, key: KeyBoardKey, value: u8) -> ConfigView {
    match key {
        KeyBoardKey::WaveSelection => if value > 0 {
            ConfigView { wave: next_wave(c.wave), ..c }
        } else {
            c
        },
        KeyBoardKey::Overtone(i) => if (i as int) < c.overtone.len() {
            ConfigView { overtone: c.overtone.update(i as int, value), ..c }
        } else {
            c
        },
        KeyBoardKey::FadeInDuration => ConfigView { fade_in_duration: duration_of(value), ..c },
        KeyBoardKey::FadeInShape => ConfigView { fade_in_shape: value, ..c },
        KeyBoardKey::FadeOutDuration => ConfigView { fade_out_duration: duration_of(value), ..c },
        KeyBoardKey::FadeOutShape => ConfigView { fade_out_shape: value, ..c },
        KeyBoardKey::Gain => ConfigView { gain: gain_of(value), ..c },
        KeyBoardKey::Modulation => ConfigView { modulation: value, ..c },
        KeyBoardKey::ModulationSpeed => ConfigView { mod_speed: value, ..c },
        KeyBoardKey::ModulationIntensity => ConfigView { mod_intensity: value, ..c },
        _ => c,
    }
}

/// The first overtone alone at full weight, fades of a tenth of a second with
/// a linear curve, a gain of one and no modulation.
pub open spec fn default_config() -> ConfigView {
    ConfigView {
        wave: WaveType::Sin,
        overtone: seq![128u8, 0, 0, 0, 0, 0, 0, 0, 0],
        fade_in_duration: 4,
        fade_in_shape: 64,
        fade_out_duration: 4,
        fade_out_shape: 64,
        gain: 127,
        modulation: 0,
        mod_speed: 4,
        mod_intensity: 0,
    }
}

impl PlayerConfig {
    /// Nine overtones, and fade durations that are not zero.
    pub open spec fn wf(&self) -> bool {
        &&& self.overtone@.len() == NB_OVERTONES
        &&& self.fade_in_duration > 0
        &&& self.fade_out_duration > 0
    }

    /// The first overtone alone at full weight, fades of a tenth of a second
    /// with a linear curve, and a gain of one.
    pub fn new() -> (r: PlayerConfig)
        ensures
            r.wf(),
            r@ == default_config(),
    {
        let r = PlayerConfig {
            wave: WaveType::Sin,
            overtone: vec![128, 0, 0, 0, 0, 0, 0, 0, 0],
            fade_in_duration: 4,
            fade_in_shape: 64,
            fade_out_duration: 4,
            fade_out_shape: 64,
            gain: 127,
            modulation: 0,
            mod_speed: 4,
            mod_intensity: 0,
        };
        assert(r@.overtone =~= default_config().overtone);
        r
    }

    /// Apply the controller bound to `key` moving to `value`; true when a
    /// setting changed.
    pub fn apply_control(&mut self, key: KeyBoardKey, value: u8) -> (changed: bool)
        requires
            old(self).wf(),
        ensures
            final(self).wf(),
            final(self)@ == with_control(old(self)@, key, value),
            changed == (final(self)@ != old(self)@),
    {
        let ghost before = self@;
        let changed = match key {
            KeyBoardKey::WaveSelection => {
                if value > 0 {
                    self.wave = self.wave.cycle();
                    true
                } else {
                    false
                }
            },
            KeyBoardKey::Overtone(i) => {
                let i = i as usize;
                if i < self.overtone.len() {
                    let old_value = self.overtone[i];
                    self.overtone.set(i, value);
                    old_value != value
                } else {
                    false
                }
            },
            KeyBoardKey::FadeInDuration => {
                let d = 1 + value as u16;
                let changed = d != self.fade_in_duration;
                self.fade_in_duration = d;
                changed
            },
            KeyBoardKey::FadeInShape => {
                let changed = value != self.fade_in_shape;
                self.fade_in_shape = value;
                changed
            },
            KeyBoardKey::FadeOutDuration => {
                let d = 1 + value as u16;
                let changed = d != self.fade_out_duration;
                self.fade_out_duration = d;
                changed
            },
            KeyBoardKey::FadeOutShape => {
                let changed = value != self.fade_out_shape;
                self.fade_out_shape = value;
                changed
            },
            KeyBoardKey::Gain => {
                let g = (1 + value as u16) * 8;
                let changed = g != self.gain;
                self.gain = g;
                changed
            },
            KeyBoardKey::Modulation => {
                let changed = value != self.modulation;
                self.modulation = value;
                changed
            },
            KeyBoardKey::ModulationSpeed => {
                let changed = value != self.mod_speed;
                self.mod_speed = value;
                changed
            },
            KeyBoardKey::ModulationIntensity => {
                let changed = value != self.mod_intensity;
                self.mod_intensity = value;
                changed
            },
            _ => false,
        };
        proof {
            assert(self@ == with_control(before, key, value));
            if !changed {
                assert(self@.overtone =~= before.overtone);
                assert(self@ =~= before);
            } else {
                if let KeyBoardKey::Overtone(i) = key {
                    assert(self@.overtone[i as int] != before.overtone[i as int]);
                }
                if let KeyBoardKey::WaveSelection = key {
                    assert(self@.wave != before.wave);
                }
            }
        }
        changed
    }
}

/// The state of one of the player's notes.
#[derive(Clone, Copy, Debug, PartialEq, Eq, Structural)]
pub struct NoteState {
    /// The key of the note is held down
    pub playing: bool,
    /// The velocity byte the note was struck with (velocity = byte / 256)
    pub velocity: u8,
    /// How far the note has faded in, from 0 to `FADE_FULL`
    pub fade_in: u32,
    /// How far the note still is from silence once released, from 0 to `FADE_FULL`
    pub fade_out: u32,
}

/// Fade levels stay within their range.
pub open spec fn note_wf(n: NoteState) -> bool {
    n.fade_in <= FADE_FULL && n.fade_out <= FADE_FULL
}

/// A note at rest: silent, faded in, nothing left to fade out.
pub open spec fn silent_note() -> NoteState {
    NoteState { playing: false, velocity: 0, fade_in: FADE_FULL, fade_out: 0 }
}

/// A note after its key is struck. A note that already plays is unchanged;
/// another one fades in from where its fade out had come to, so that no click
/// is heard.
pub open spec fn struck(n: NoteState, velocity: u8) -> NoteState {
    if n.playing {
        n
    } else {
        NoteState { playing: true, velocity, fade_in: n.fade_out, fade_out: n.fade_out }
    }
}

/// A note after its key is released: its fade out starts from full.
pub open spec fn released(n: NoteState) -> NoteState {
    NoteState { playing: false, fade_out: FADE_FULL, ..n }
}

/// Whether a note is on its way in (or held) rather than on its way out.
pub open spec fn rising(n: NoteState) -> bool {
    n.playing || n.fade_in < FADE_FULL
}

/// A note one frame later, with the given steps of fade in and fade out.
pub open spec fn faded(n: NoteState, in_step: u32, out_step: u32) -> NoteState {
    if rising(n) {
        NoteState {
            fade_in: if n.fade_in + in_step > FADE_FULL {
                FADE_FULL
            } else {
                (n.fade_in + in_step) as u32
            },
            ..n
        }
    } else {
        NoteState {
            fade_out: if n.fade_out < out_step {
                0
            } else {
                (n.fade_out - out_step) as u32
            },
            ..n
        }
    }
}

/// The fade level a note sounds at this frame: its fade in level while
/// rising, else its fade out level.
pub open spec fn level(n: NoteState) -> u32 {
    if rising(n) {
        n.fade_in
    } else {
        n.fade_out
    }
}

/// How much a fade of `duration` fortieths of a second moves each frame at
/// `rate` frames per second; at least one, so that every fade ends.
pub open spec fn fade_step(rate: usize, duration: u16) -> u32 {
    let s = FADE_FULL as int * FADE_DURATION_UNITS_PER_SECOND as int / (rate as int * duration as int);
    if s < 1 {
        1
    } else if s > FADE_FULL {
        FADE_FULL
    } else {
        s as u32
    }
}

/// The time dilation of a pitch bend position, in 64ths: below the middle
/// position it slows down to `value / 64`, from it up it speeds up by
/// `(value - 64) / 64`.
pub open spec fn dilation(value: u8) -> int {
    if value < 64 {
        value as int
    } else {
        64 + (value - 64)
    }
}

/// The pitch bend dilation has no jump: it is `value / 64` throughout, so
/// 63 gives 63/64, 64 gives 1 and 127 gives 1.984375.
pub proof fn lemma_dilation_continuous(value: u8)
    ensures
        dilation(value) == value as int,
        dilation(63) == 63,
        dilation(64) == 64,
        dilation(127) == 127,
{
}

/// A note released and struck again resumes its fade in from the level its
/// fade out was at, not from silence.
pub proof fn lemma_restrike_resumes(n: NoteState, velocity: u8)
    ensures
        struck(released(n), velocity).fade_in == released(n).fade_out,
        struck(released(n), velocity).playing,
        struck(released(n), velocity).fade_in == FADE_FULL,
{
}

/// Requests from the control surface to the player.
pub enum MessageToPlayer {
    /// Bind the next controller that moves to this key
    NewKeyboardKey(KeyBoardKey),
    /// Unbind the controller of this key
    ClearKeybaordKey(KeyBoardKey),
    /// Replace the settings
    NewConfiguration(PlayerConfig),
    /// Unbind every controller
    ClearAllKeyboardKeys,
    /// Store the bindings
    SaveConf,
    /// Load stored bindings
    LoadConf,
}

impl From<KeyBoardKeySetter> for MessageToPlayer {
    fn from(value: KeyBoardKeySetter) -> (r: MessageToPlayer)
        ensures
            r == (match value {
                KeyBoardKeySetter::Bind(k) => MessageToPlayer::NewKeyboardKey(k),
                KeyBoardKeySetter::Clear(k) => MessageToPlayer::ClearKeybaordKey(k),
            }),
    {
        match value {
            KeyBoardKeySetter::Bind(k) => MessageToPlayer::NewKeyboardKey(k),
            KeyBoardKeySetter::Clear(k) => MessageToPlayer::ClearKeybaordKey(k),
        }
    }
}

impl vstd::std_specs::convert::FromSpecImpl<KeyBoardKeySetter> for MessageToPlayer {
    open spec fn obeys_from_spec() -> bool {
        true
    }

    open spec fn from_spec(v: KeyBoardKeySetter) -> MessageToPlayer {
        match v {
            KeyBoardKeySetter::Bind(k) => MessageToPlayer::NewKeyboardKey(k),
            KeyBoardKeySetter::Clear(k) => MessageToPlayer::ClearKeybaordKey(k),
        }
    }
}

/// What a request leaves for the caller to do.
#[derive(Clone, Copy, Debug, PartialEq, Eq, Structural)]
pub enum PlayerRequest {
    Nothing,
    /// Store the bindings
    Save,
    /// Load stored bindings and hand them back with `set_keyboard`
    Load,
}

/// The decisions of the additive player: its notes, bindings and settings.
pub struct Player {
    /// Frames per second
    rate: usize,
    /// The time dilation set by the pitch bend, in 64ths
    time_dilation: u8,
    keyboard: HardWare,
    notes: Vec<NoteState>,
    config: PlayerConfig,
    /// The key that the next controller to move gets bound to
    map_next_contrl: Option<KeyBoardKey>,
}

impl Player {
    pub closed spec fn rate_spec(&self) -> usize {
        self.rate
    }

    pub closed spec fn dilation_spec(&self) -> u8 {
        self.time_dilation
    }

    pub closed spec fn controls(&self) -> Map<u8, KeyBoardKey> {
        self.keyboard.controls()
    }

    pub closed spec fn notes_spec(&self) -> Seq<NoteState> {
        self.notes@
    }

    pub closed spec fn config_spec(&self) -> ConfigView {
        self.config@
    }

    pub closed spec fn map_next_spec(&self) -> Option<KeyBoardKey> {
        self.map_next_contrl
    }

    /// The controller table is well formed.
    pub closed spec fn keyboard_wf(&self) -> bool {
        self.keyboard.wf()
    }

    /// A note table of 144 notes with fade levels in range, nine overtones,
    /// fades that last, and a positive frame rate.
    pub open spec fn wf(&self) -> bool {
        &&& self.rate_spec() > 0
        &&& self.keyboard_wf()
        &&& self.config_spec().overtone.len() == NB_OVERTONES
        &&& self.config_spec().fade_in_duration > 0
        &&& self.config_spec().fade_out_duration > 0
        &&& self.notes_spec().len() == NB_NOTES
        &&& forall|i: int| 0 <= i < NB_NOTES ==> note_wf(#[trigger] self.notes_spec()[i])
    }

    /// A silent player at `rate` frames per second with the given bindings.
    pub fn new(rate: usize, keyboard: HardWare) -> (r: Player)
        requires
            rate > 0,
            keyboard.wf(),
        ensures
            r.wf(),
            r.rate_spec() == rate,
            r.dilation_spec() == 64,
            r.controls() == keyboard.controls(),
            r.notes_spec() == Seq::new(NB_NOTES as nat, |i: int| silent_note()),
            r.config_spec() == default_config(),
            r.map_next_spec() == None::<KeyBoardKey>,
    {
        let mut notes: Vec<NoteState> = Vec::with_capacity(NB_NOTES);
        let mut i: usize = 0;
        while i < NB_NOTES
            invariant
                i <= NB_NOTES,
                notes@.len() == i,
                forall|j: int| 0 <= j < i ==> #[trigger] notes@[j] == silent_note(),
            decreases NB_NOTES - i,
        {
            notes.push(NoteState { playing: false, velocity: 0, fade_in: FADE_FULL, fade_out: 0 });
            i = i + 1;
        }
        let r = Player {
            rate,
            time_dilation: 64,
            keyboard,
            notes,
            config: PlayerConfig::new(),
            map_next_contrl: None,
        };
        assert(r.notes_spec() =~= Seq::new(NB_NOTES as nat, |i: int| silent_note()));
        r
    }

    pub fn config(&self) -> (r: &PlayerConfig)
        ensures
            r@ == self.config_spec(),
    {
        &self.config
    }

    pub fn keyboard(&self) -> (r: &HardWare)
        ensures
            r.controls() == self.controls(),
    {
        &self.keyboard
    }

    /// Replace the bindings.
    pub fn set_keyboard(&mut self, keyboard: HardWare)
        requires
            old(self).wf(),
            keyboard.wf(),
        ensures
            final(self).wf(),
            final(self).controls() == keyboard.controls(),
            final(self).notes_spec() == old(self).notes_spec(),
            final(self).config_spec() == old(self).config_spec(),
            final(self).map_next_spec() == old(self).map_next_spec(),
            final(self).dilation_spec() == old(self).dilation_spec(),
            final(self).rate_spec() == old(self).rate_spec(),
    {
        self.keyboard = keyboard;
    }

    /// The time dilation set by the pitch bend, in 64ths.
    pub fn time_dilation(&self) -> (r: u8)
        ensures
            r == self.dilation_spec(),
    {
        self.time_dilation
    }

    /// The state of note `index`.
    pub fn note(&self, index: usize) -> (r: NoteState)
        requires
            self.wf(),
            index < NB_NOTES,
        ensures
            r == self.notes_spec()[index as int],
    {
        self.notes[index]
    }

    /// Apply a request from the control surface; saving and loading the
    /// bindings is left to the caller.
    pub fn apply_message(&mut self, message: MessageToPlayer) -> (r: PlayerRequest)
        requires
            old(self).wf(),
            message is NewConfiguration ==> message->NewConfiguration_0.wf(),
        ensures
            final(self).wf(),
            final(self).notes_spec() == old(self).notes_spec(),
            final(self).dilation_spec() == old(self).dilation_spec(),
            final(self).rate_spec() == old(self).rate_spec(),
            match message {
                MessageToPlayer::NewKeyboardKey(k) => {
                    &&& final(self).map_next_spec() == Some(k)
                    &&& final(self).controls() == old(self).controls()
                    &&& final(self).config_spec() == old(self).config_spec()
                    &&& r == PlayerRequest::Nothing
                },
                MessageToPlayer::ClearKeybaordKey(k) => {
                    &&& final(self).map_next_spec() == old(self).map_next_spec()
                    &&& final(self).controls() == without_key(old(self).controls(), k)
                    &&& final(self).config_spec() == old(self).config_spec()
                    &&& r == PlayerRequest::Nothing
                },
                MessageToPlayer::NewConfiguration(c) => {
                    &&& final(self).map_next_spec() == old(self).map_next_spec()
                    &&& final(self).controls() == old(self).controls()
                    &&& final(self).config_spec() == c@
                    &&& r == PlayerRequest::Nothing
                },
                MessageToPlayer::ClearAllKeyboardKeys => {
                    &&& final(self).map_next_spec() == old(self).map_next_spec()
                    &&& final(self).controls() == Map::<u8, KeyBoardKey>::empty()
                    &&& final(self).config_spec() == old(self).config_spec()
                    &&& r == PlayerRequest::Nothing
                },
                MessageToPlayer::SaveConf => {
                    &&& final(self).map_next_spec() == old(self).map_next_spec()
                    &&& final(self).controls() == old(self).controls()
                    &&& final(self).config_spec() == old(self).config_spec()
                    &&& r == PlayerRequest::Save
                },
                MessageToPlayer::LoadConf => {
                    &&& final(self).map_next_spec() == old(self).map_next_spec()
                    &&& final(self).controls() == old(self).controls()
                    &&& final(self).config_spec() == old(self).config_spec()
                    &&& r == PlayerRequest::Load
                },
            },
    {
        match message {
            MessageToPlayer::NewKeyboardKey(k) => {
                self.map_next_contrl = Some(k);
                PlayerRequest::Nothing
            },
            MessageToPlayer::ClearKeybaordKey(k) => {
                self.keyboard.clear_key(k);
                PlayerRequest::Nothing
            },
            MessageToPlayer::NewConfiguration(c) => {
                self.config = c;
                PlayerRequest::Nothing
            },
            MessageToPlayer::ClearAllKeyboardKeys => {
                self.keyboard.clear_all();
                PlayerRequest::Nothing
            },
            MessageToPlayer::SaveConf => PlayerRequest::Save,
            MessageToPlayer::LoadConf => PlayerRequest::Load,
        }
    }

    /// Act on one MIDI event; true when the settings changed. Notes past the
    /// last of the 144 are ignored.
    pub fn handle_midi(&mut self, event: MidiInput) -> (changed: bool)
        requires
            old(self).wf(),
        ensures
            final(self).wf(),
            final(self).rate_spec() == old(self).rate_spec(),
            match event {
                MidiInput::NoteStart { note_index, velocity, .. } => {
                    &&& !changed
                    &&& final(self).notes_spec() == if note_index < NB_NOTES {
                        old(self).notes_spec().update(
                            note_index as int,
                            struck(old(self).notes_spec()[note_index as int], velocity),
                        )
                    } else {
                        old(self).notes_spec()
                    }
                    &&& final(self).controls() == old(self).controls()
                    &&& final(self).config_spec() == old(self).config_spec()
                    &&& final(self).map_next_spec() == old(self).map_next_spec()
                    &&& final(self).dilation_spec() == old(self).dilation_spec()
                },
                MidiInput::NoteEnd { note_index, .. } => {
                    &&& !changed
                    &&& final(self).notes_spec() == if note_index < NB_NOTES {
                        old(self).notes_spec().update(
                            note_index as int,
                            released(old(self).notes_spec()[note_index as int]),
                        )
                    } else {
                        old(self).notes_spec()
                    }
                    &&& final(self).controls() == old(self).controls()
                    &&& final(self).config_spec() == old(self).config_spec()
                    &&& final(self).map_next_spec() == old(self).map_next_spec()
                    &&& final(self).dilation_spec() == old(self).dilation_spec()
                },
                MidiInput::Controller { control, value, .. } => {
                    let controls = match old(self).map_next_spec() {
                        Some(k) => bind(old(self).controls(), k, control),
                        None => old(self).controls(),
                    };
                    &&& final(self).controls() == controls
                    &&& final(self).map_next_spec() == None::<KeyBoardKey>
                    &&& final(self).config_spec() == if controls.contains_key(control) {
                        with_control(old(self).config_spec(), controls[control], value)
                    } else {
                        old(self).config_spec()
                    }
                    &&& changed == (final(self).config_spec() != old(self).config_spec())
                    &&& final(self).notes_spec() == old(self).notes_spec()
                    &&& final(self).dilation_spec() == old(self).dilation_spec()
                },
                MidiInput::PitchBend { value } => {
                    &&& !changed
                    &&& final(self).dilation_spec() == dilation(value)
                    &&& final(self).notes_spec() == old(self).notes_spec()
                    &&& final(self).controls() == old(self).controls()
                    &&& final(self).config_spec() == old(self).config_spec()
                    &&& final(self).map_next_spec() == old(self).map_next_spec()
                },
                MidiInput::Unknown { .. } => {
                    &&& !changed
                    &&& final(self).dilation_spec() == old(self).dilation_spec()
                    &&& final(self).notes_spec() == old(self).notes_spec()
                    &&& final(self).controls() == old(self).controls()
                    &&& final(self).config_spec() == old(self).config_spec()
                    &&& final(self).map_next_spec() == old(self).map_next_spec()
                },
            },
    {
        match event {
            MidiInput::NoteStart { note_index, velocity, .. } => {
                if note_index < NB_NOTES {
                    let n = self.notes[note_index];
                    if !n.playing {
                        self.notes.set(
                            note_index,
                            NoteState { playing: true, velocity, fade_in: n.fade_out, fade_out: n.fade_out },
                        );
                    }
                    proof {
                        assert(note_wf(self.notes@[note_index as int]));
                        assert(self.notes@ =~= old(self).notes@.update(
                            note_index as int,
                            struck(old(self).notes@[note_index as int], velocity),
                        ));
                    }
                }
                false
            },
            MidiInput::NoteEnd { note_index, .. } => {
                if note_index < NB_NOTES {
                    let n = self.notes[note_index];
                    self.notes.set(note_index, NoteState { playing: false, fade_out: FADE_FULL, ..n });
                    proof {
                        assert(note_wf(old(self).notes@[note_index as int]));
                    }
                }
                false
            },
            MidiInput::Controller { control, value, .. } => {
                if let Some(k) = self.map_next_contrl {
                    self.keyboard.update_key(k, control);
                    self.map_next_contrl = None;
                }
                match self.keyboard.get_keyboard_key(control) {
                    Some(key) => self.config.apply_control(key, value),
                    None => false,
                }
            },
            MidiInput::PitchBend { value } => {
                if value < 64 {
                    self.time_dilation = value;
                } else {
                    self.time_dilation = 64 + (value - 64);
                }
                false
            },
            MidiInput::Unknown { .. } => false,
        }
    }

    /// How much the fade in and the fade out move each frame.
    pub fn fade_steps(&self) -> (r: (u32, u32))
        requires
            self.wf(),
        ensures
            r.0 == fade_step(self.rate_spec(), self.config_spec().fade_in_duration),
            r.1 == fade_step(self.rate_spec(), self.config_spec().fade_out_duration),
    {
        (
            compute_increment(self.rate, self.config.fade_in_duration),
            compute_increment(self.rate, self.config.fade_out_duration),
        )
    }

    /// Move note `index` one frame on and return the fade level it sounds at
    /// this frame, with whether it is rising.
    pub fn advance_note(&mut self, index: usize, in_step: u32, out_step: u32) -> (r: (u32, bool))
        requires
            old(self).wf(),
            index < NB_NOTES,
        ensures
            final(self).wf(),
            r.0 == level(old(self).notes_spec()[index as int]),
            r.1 == rising(old(self).notes_spec()[index as int]),
            final(self).notes_spec() == old(self).notes_spec().update(
                index as int,
                faded(old(self).notes_spec()[index as int], in_step, out_step),
            ),
            final(self).controls() == old(self).controls(),
            final(self).config_spec() == old(self).config_spec(),
            final(self).map_next_spec() == old(self).map_next_spec(),
            final(self).dilation_spec() == old(self).dilation_spec(),
            final(self).rate_spec() == old(self).rate_spec(),
    {
        let n = self.notes[index];
        proof {
            assert(note_wf(self.notes@[index as int]));
        }
        if n.playing || n.fade_in < FADE_FULL {
            let next = if n.fade_in as u64 + in_step as u64 > FADE_FULL as u64 {
                FADE_FULL
            } else {
                n.fade_in + in_step
            };
            self.notes.set(index, NoteState { fade_in: next, ..n });
            (n.fade_in, true)
        } else {
            let next = if n.fade_out < out_step {
                0
            } else {
                n.fade_out - out_step
            };
            self.notes.set(index, NoteState { fade_out: next, ..n });
            (n.fade_out, false)
        }
    }
}

/// The per-frame step of a fade of `duration` fortieths of a second.
fn compute_increment(rate: usize, duration: u16) -> (r: u32)
    requires
        rate > 0,
        duration > 0,
    ensures
        r == fade_step(rate, duration),
{
    proof {
        assert(rate as int * duration as int <= usize::MAX as int * 0xffff) by (nonlinear_arith)
            requires
                duration <= 0xffff,
        ;
    }
    let frames = rate as u128 * duration as u128;
    proof {
        assert(frames > 0) by (nonlinear_arith)
            requires
                rate > 0,
                duration > 0,
                frames as int == rate as int * duration as int,
        ;
    }
    assert(FADE_FULL as int * FADE_DURATION_UNITS_PER_SECOND as int == 671_088_640) by (nonlinear_arith)
        requires
            FADE_FULL == 16_777_216u32,
            FADE_DURATION_UNITS_PER_SECOND == 40u64,
    ;
    let numerator: u128 = FADE_FULL as u128 * FADE_DURATION_UNITS_PER_SECOND as u128;
    let s = numerator / frames;
    if s < 1 {
        1
    } else if s > FADE_FULL as u128 {
        FADE_FULL
    } else {
        s as u32
    }
}

} // verus!
