use crate::hardware::{bind, without_key, HardWare, KeyBoardKey, KeyBoardKeySetter};
use crate::midiinput::MidiInput;
use vstd::prelude::*;

verus! {

/// What the metronome plays.
#[derive(Clone, Copy, Debug, PartialEq, Eq, Structural)]
pub struct MetronomeConfiguration {
    /// The number of quarter notes per minute
    pub bpm: usize,
    /// The number of quarter notes per bar
    pub nb_notes: usize,
    /// Whether the metronome sounds
    pub active: bool,
}

impl Default for MetronomeConfiguration {
    /// 110 quarter notes per minute, four per bar, sounding.
    fn default() -> (r: MetronomeConfiguration)
        ensures
            r == (MetronomeConfiguration { bpm: 110, nb_notes: 4, active: true }),
    {
        MetronomeConfiguration { bpm: 110, nb_notes: 4, active: true }
    }
}

/// The fewest frames per second the metronome works at: at the fastest tempo a
/// controller can set, a beat still lasts at least one frame.
pub const MIN_RATE: usize = 8;

/// A configuration the metronome can play at `rate` frames per second: a beat
/// lasts at least one frame and a bar has at least one beat.
pub open spec fn playable(c: MetronomeConfiguration, rate: usize) -> bool {
    &&& c.bpm >= 1
    &&& c.nb_notes >= 1
    &&& c.bpm <= rate * 60
}

/// The tempo a controller position sets: from 60 quarter notes per minute,
/// 180 more for every 128 steps.
pub open spec fn tempo_of(value: u8) -> usize {
    (60 + value as int * 180 / 128) as usize
}

/// The number of frames between two beats.
pub open spec fn beat_period(c: MetronomeConfiguration, rate: usize) -> int {
    (rate * 60) as int / c.bpm as int
}

/// One frame of a click.
#[derive(Clone, Copy, Debug, PartialEq, Eq, Structural)]
pub struct Click {
    /// The amplitude of the click, which rises and falls over its length
    pub fade: usize,
    /// The click that starts a bar is higher
    pub high: bool,
    /// The frame of the click's wave
    pub frame: usize,
}

/// Requests from the control surface to the metronome.
pub enum MessageToMetronome {
    Active(bool),
    NewConfiguration(MetronomeConfiguration),
    /// Bind the next controller that moves to this key
    SetKey(KeyBoardKey),
    /// Unbind the controller of this key
    ClearKey(KeyBoardKey),
}

impl From<KeyBoardKeySetter> for MessageToMetronome {
    fn from(value: KeyBoardKeySetter) -> (r: MessageToMetronome)
        ensures
            r == (match value {
                KeyBoardKeySetter::Bind(k) => MessageToMetronome::SetKey(k),
                KeyBoardKeySetter::Clear(k) => MessageToMetronome::ClearKey(k),
            }),
    {
        match value {
            KeyBoardKeySetter::Bind(k) => MessageToMetronome::SetKey(k),
            KeyBoardKeySetter::Clear(k) => MessageToMetronome::ClearKey(k),
        }
    }
}

impl vstd::std_specs::convert::FromSpecImpl<KeyBoardKeySetter> for MessageToMetronome {
    open spec fn obeys_from_spec() -> bool {
        true
    }

    open spec fn from_spec(value: KeyBoardKeySetter) -> MessageToMetronome {
        match value {
            KeyBoardKeySetter::Bind(k) => MessageToMetronome::SetKey(k),
            KeyBoardKeySetter::Clear(k) => MessageToMetronome::ClearKey(k),
        }
    }
}

/// The state of the metronome.
pub struct Metronome {
    configuration: MetronomeConfiguration,
    keyboard: HardWare,
    /// Frames per second
    rate: usize,
    /// Frames since the start of the bar
    time: usize,
    /// Frames of the current click still to play
    sound_left: usize,
    /// The length of a click
    sound_duration: usize,
    /// The beat within the bar
    beat_nb: usize,
    /// The key that the next controller to move gets bound to
    next_key_map: Option<KeyBoardKey>,
}

impl Metronome {
    pub closed spec fn configuration_spec(&self) -> MetronomeConfiguration {
        self.configuration
    }

    pub closed spec fn controls(&self) -> Map<u8, KeyBoardKey> {
        self.keyboard.controls()
    }

    pub closed spec fn rate_spec(&self) -> usize {
        self.rate
    }

    pub closed spec fn time_spec(&self) -> usize {
        self.time
    }

    pub closed spec fn sound_left_spec(&self) -> usize {
        self.sound_left
    }

    pub closed spec fn sound_duration_spec(&self) -> usize {
        self.sound_duration
    }

    pub closed spec fn beat_spec(&self) -> usize {
        self.beat_nb
    }

    pub closed spec fn next_key_spec(&self) -> Option<KeyBoardKey> {
        self.next_key_map
    }

    /// The controller table is well formed.
    pub closed spec fn keyboard_wf(&self) -> bool {
        self.keyboard.wf()
    }

    /// A playable configuration at a supported rate, a click within its
    /// length and a beat within the bar.
    pub open spec fn wf(&self) -> bool {
        &&& MIN_RATE <= self.rate_spec() <= usize::MAX / 60
        &&& playable(self.configuration_spec(), self.rate_spec())
        &&& self.keyboard_wf()
        &&& self.sound_left_spec() <= self.sound_duration_spec()
        &&& self.beat_spec() < self.configuration_spec().nb_notes
    }

    /// A metronome at `rate` frames per second with the default configuration,
    /// whose clicks last a tenth of a second.
    pub fn new(rate: usize) -> (r: Metronome)
        requires
            MIN_RATE <= rate <= usize::MAX / 60,
        ensures
            r.wf(),
            r.configuration_spec() == (MetronomeConfiguration { bpm: 110, nb_notes: 4, active: true }),
            r.controls() == Map::<u8, KeyBoardKey>::empty(),
            r.time_spec() == 0,
            r.sound_left_spec() == rate / 10,
            r.sound_duration_spec() == rate / 10,
            r.beat_spec() == 0,
            r.next_key_spec() == None::<KeyBoardKey>,
    {
        Metronome {
            configuration: MetronomeConfiguration::default(),
            keyboard: HardWare::new(),
            rate,
            time: 0,
            sound_left: rate / 10,
            sound_duration: rate / 10,
            beat_nb: 0,
            next_key_map: None,
        }
    }

    pub fn configuration(&self) -> (r: MetronomeConfiguration)
        ensures
            r == self.configuration_spec(),
    {
        self.configuration
    }

    /// Apply a request from the control surface.
    pub fn apply_message(&mut self, message: MessageToMetronome)
        requires
            old(self).wf(),
            message is NewConfiguration ==> playable(message->NewConfiguration_0, old(self).rate_spec()),
        ensures
            final(self).wf(),
            final(self).rate_spec() == old(self).rate_spec(),
            final(self).time_spec() == old(self).time_spec(),
            final(self).sound_left_spec() == old(self).sound_left_spec(),
            final(self).sound_duration_spec() == old(self).sound_duration_spec(),
            match message {
                MessageToMetronome::Active(a) => {
                    &&& final(self).configuration_spec() == MetronomeConfiguration {
                        active: a,
                        ..old(self).configuration_spec()
                    }
                    &&& final(self).beat_spec() == old(self).beat_spec()
                    &&& final(self).controls() == old(self).controls()
                    &&& final(self).next_key_spec() == old(self).next_key_spec()
                },
                MessageToMetronome::NewConfiguration(c) => {
                    &&& final(self).configuration_spec() == c
                    &&& final(self).beat_spec() == old(self).beat_spec() % c.nb_notes
                    &&& final(self).controls() == old(self).controls()
                    &&& final(self).next_key_spec() == old(self).next_key_spec()
                },
                MessageToMetronome::SetKey(k) => {
                    &&& final(self).configuration_spec() == old(self).configuration_spec()
                    &&& final(self).beat_spec() == old(self).beat_spec()
                    &&& final(self).controls() == old(self).controls()
                    &&& final(self).next_key_spec() == Some(k)
                },
                MessageToMetronome::ClearKey(k) => {
                    &&& final(self).configuration_spec() == old(self).configuration_spec()
                    &&& final(self).beat_spec() == old(self).beat_spec()
                    &&& final(self).controls() == without_key(old(self).controls(), k)
                    &&& final(self).next_key_spec() == old(self).next_key_spec()
                },
            },
    {
        match message {
            MessageToMetronome::NewConfiguration(conf) => {
                self.configuration = conf;
                self.beat_nb = self.beat_nb % conf.nb_notes;
            },
            MessageToMetronome::Active(active) => self.configuration.active = active,
            MessageToMetronome::SetKey(key_board_key) => self.next_key_map = Some(key_board_key),
            MessageToMetronome::ClearKey(key_board_key) => self.keyboard.clear_key(key_board_key),
        }
    }

    /// Act on one MIDI event. A pressed controller is bound to the key waiting
    /// for one, if any; else the controller bound to `Activate` switches the
    /// metronome on or off and the one bound to `Tempo` sets the tempo.
    pub fn handle_midi(&mut self, event: MidiInput)
        requires
            old(self).wf(),
        ensures
            final(self).wf(),
            final(self).rate_spec() == old(self).rate_spec(),
            final(self).time_spec() == old(self).time_spec(),
            final(self).sound_left_spec() == old(self).sound_left_spec(),
            final(self).sound_duration_spec() == old(self).sound_duration_spec(),
            final(self).beat_spec() == old(self).beat_spec(),
            match event {
                MidiInput::Controller { control, value, .. } => if value > 0
                    && old(self).next_key_spec() is Some {
                    &&& final(self).controls() == bind(
                        old(self).controls(),
                        old(self).next_key_spec()->Some_0,
                        control,
                    )
                    &&& final(self).next_key_spec() == None::<KeyBoardKey>
                    &&& final(self).configuration_spec() == old(self).configuration_spec()
                } else {
                    let c = old(self).configuration_spec();
                    let bound = old(self).controls().contains_key(control);
                    &&& final(self).controls() == old(self).controls()
                    &&& final(self).next_key_spec() == old(self).next_key_spec()
                    &&& final(self).configuration_spec() == if value > 0 && bound
                        && old(self).controls()[control] == KeyBoardKey::Activate {
                        MetronomeConfiguration { active: !c.active, ..c }
                    } else if value > 0 && bound && old(self).controls()[control]
                        == KeyBoardKey::Tempo {
                        MetronomeConfiguration { bpm: tempo_of(value), ..c }
                    } else {
                        c
                    }
                },
                _ => {
                    &&& final(self).controls() == old(self).controls()
                    &&& final(self).next_key_spec() == old(self).next_key_spec()
                    &&& final(self).configuration_spec() == old(self).configuration_spec()
                },
            },
    {
        if let MidiInput::Controller { control, value, .. } = event {
            if self.next_key_map.is_some() && value > 0 {
                if let Some(k) = self.next_key_map {
                    self.keyboard.update_key(k, control);
                }
                self.next_key_map = None;
            } else if value > 0 {
                match self.keyboard.get_keyboard_key(control) {
                    Some(KeyBoardKey::Activate) => {
                        self.configuration.active = !self.configuration.active;
                    },
                    Some(KeyBoardKey::Tempo) => {
                        assert(value as usize * 180 <= 255 * 180);
                        self.configuration.bpm = 60 + value as usize * 180 / 128;
                    },
                    _ => {},
                }
            }
        }
    }

    /// Play one frame: the click sounding at this frame, if any and if the
    /// metronome is active. Between clicks, a new click starts on every
    /// multiple of the beat period; the first beat of a bar restarts the count
    /// of frames.
    pub fn tick(&mut self) -> (r: Option<Click>)
        requires
            old(self).wf(),
        ensures
            final(self).wf(),
            final(self).configuration_spec() == old(self).configuration_spec(),
            final(self).controls() == old(self).controls(),
            final(self).next_key_spec() == old(self).next_key_spec(),
            final(self).rate_spec() == old(self).rate_spec(),
            final(self).sound_duration_spec() == old(self).sound_duration_spec(),
            ({
                let time = old(self).time_spec();
                let left = old(self).sound_left_spec();
                let duration = old(self).sound_duration_spec();
                let next_time = if time == usize::MAX {
                    0
                } else {
                    time + 1
                };
                if left > 0 {
                    &&& r == if old(self).configuration_spec().active {
                        Some(
                            Click {
                                fade: if left > duration / 2 {
                                    (duration - left) as usize
                                } else {
                                    left
                                },
                                high: time + left <= duration,
                                frame: if time + left <= duration {
                                    time
                                } else {
                                    (duration - left) as usize
                                },
                            },
                        )
                    } else {
                        None::<Click>
                    }
                    &&& final(self).time_spec() == next_time
                    &&& final(self).sound_left_spec() == left - 1
                    &&& final(self).beat_spec() == old(self).beat_spec()
                } else {
                    let c = old(self).configuration_spec();
                    let beat = (old(self).beat_spec() + 1) % c.nb_notes as int;
                    &&& r == None::<Click>
                    &&& if time as int % beat_period(c, old(self).rate_spec()) == 0 {
                        &&& final(self).sound_left_spec() == duration
                        &&& final(self).beat_spec() == beat
                        &&& final(self).time_spec() == if beat == 0 {
                            0
                        } else {
                            next_time
                        }
                    } else {
                        &&& final(self).sound_left_spec() == 0
                        &&& final(self).beat_spec() == old(self).beat_spec()
                        &&& final(self).time_spec() == next_time
                    }
                }
            }),
    {
        if self.sound_left > 0 {
            let fade = if self.sound_left > self.sound_duration / 2 {
                self.sound_duration - self.sound_left
            } else {
                self.sound_left
            };
            let first_beat = self.time <= self.sound_duration - self.sound_left;
            let frame = if first_beat {
                self.time
            } else {
                self.sound_duration - self.sound_left
            };
            self.time = self.time.wrapping_add(1);
            self.sound_left = self.sound_left - 1;
            if self.configuration.active {
                Some(Click { fade, high: first_beat, frame })
            } else {
                None
            }
        } else {
            let period = self.rate * 60 / self.configuration.bpm;
            proof {
                assert(period >= 1) by (nonlinear_arith)
                    requires
                        self.configuration.bpm >= 1,
                        self.configuration.bpm <= self.rate * 60,
                        period == (self.rate * 60) as int / self.configuration.bpm as int,
                ;
            }
            if self.time % period == 0 {
                self.sound_left = self.sound_duration;
                self.beat_nb = (self.beat_nb + 1) % self.configuration.nb_notes;
                if self.beat_nb == 0 {
                    self.time = 0;
                } else {
                    self.time = self.time.wrapping_add(1);
                }
            } else {
                self.time = self.time.wrapping_add(1);
            }
            None
        }
    }
}

} // verus!
