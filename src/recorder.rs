use crate::hardware::{bind, without_key, HardWare, KeyBoardKey, KeyBoardKeySetter};
use crate::midiinput::MidiInput;
use vstd::prelude::*;

verus! {

/// Requests from the control surface to the recorder.
pub enum MessageToRecorder {
    StartRecording,
    StopRecordeing,
    /// Name the next files with this prefix
    NewPrefix(String),
    /// Bind the next controller that moves to the record switch
    ChangeRecord,
    /// Unbind the record switch
    DiscardRecordKey,
    /// Listen to record requests, or ignore them
    Active(bool),
}

impl From<KeyBoardKeySetter> for MessageToRecorder {
    fn from(value: KeyBoardKeySetter) -> (r: MessageToRecorder)
        ensures
            r == (match value {
                KeyBoardKeySetter::Bind(_k) => MessageToRecorder::ChangeRecord,
                KeyBoardKeySetter::Clear(_k) => MessageToRecorder::DiscardRecordKey,
            }),
    {
        match value {
            KeyBoardKeySetter::Bind(_k) => MessageToRecorder::ChangeRecord,
            KeyBoardKeySetter::Clear(_k) => MessageToRecorder::DiscardRecordKey,
        }
    }
}

impl vstd::std_specs::convert::FromSpecImpl<KeyBoardKeySetter> for MessageToRecorder {
    open spec fn obeys_from_spec() -> bool {
        true
    }

    open spec fn from_spec(value: KeyBoardKeySetter) -> MessageToRecorder {
        match value {
            KeyBoardKeySetter::Bind(_k) => MessageToRecorder::ChangeRecord,
            KeyBoardKeySetter::Clear(_k) => MessageToRecorder::DiscardRecordKey,
        }
    }
}

/// What the caller has to do after a request or an event.
pub enum RecorderAction {
    Nothing,
    /// A recording started
    Started,
    /// A recording stopped: here are its samples to store
    Save(Vec<i16>),
}

/// Records the audio input between two presses of the record switch.
pub struct Recorder {
    /// Record requests are listened to
    active: bool,
    /// A recording is in progress
    recording: bool,
    /// The next controller to move becomes the record switch
    key_change: bool,
    keyboard: HardWare,
    /// The prefix of the names of the files
    audio_prefix: String,
    /// The samples of the recording in progress
    record_buffer: Vec<i16>,
    /// The number of samples room is made for at the start of a recording
    capacity: usize,
}

impl Recorder {
    pub closed spec fn active_spec(&self) -> bool {
        self.active
    }

    pub closed spec fn recording_spec(&self) -> bool {
        self.recording
    }

    pub closed spec fn key_change_spec(&self) -> bool {
        self.key_change
    }

    pub closed spec fn controls(&self) -> Map<u8, KeyBoardKey> {
        self.keyboard.controls()
    }

    pub closed spec fn prefix_spec(&self) -> Seq<char> {
        self.audio_prefix@
    }

    pub closed spec fn buffer(&self) -> Seq<i16> {
        self.record_buffer@
    }

    pub closed spec fn wf(&self) -> bool {
        self.keyboard.wf()
    }

    /// An active recorder, not recording, with no switch and the prefix "Rec".
    pub fn new(capacity: usize) -> (r: Recorder)
        ensures
            r.wf(),
            r.active_spec(),
            !r.recording_spec(),
            !r.key_change_spec(),
            r.controls() == Map::<u8, KeyBoardKey>::empty(),
            r.prefix_spec() == "Rec"@,
            r.buffer() == Seq::<i16>::empty(),
    {
        Recorder {
            active: true,
            recording: false,
            key_change: false,
            keyboard: HardWare::new(),
            audio_prefix: "Rec".to_owned(),
            record_buffer: Vec::with_capacity(capacity),
            capacity,
        }
    }

    pub fn prefix(&self) -> (r: &str)
        ensures
            r@ == self.prefix_spec(),
    {
        self.audio_prefix.as_str()
    }

    pub fn is_recording(&self) -> (r: bool)
        ensures
            r == self.recording_spec(),
    {
        self.recording
    }

    /// End the recording in progress and hand its samples over.
    fn stop(&mut self) -> (r: Vec<i16>)
        ensures
            r@ == old(self).buffer(),
            final(self).buffer() == Seq::<i16>::empty(),
            !final(self).recording_spec(),
            final(self).active_spec() == old(self).active_spec(),
            final(self).key_change_spec() == old(self).key_change_spec(),
            final(self).keyboard == old(self).keyboard,
            final(self).prefix_spec() == old(self).prefix_spec(),
    {
        self.recording = false;
        let mut recorded: Vec<i16> = Vec::with_capacity(self.capacity);
        std::mem::swap(&mut self.record_buffer, &mut recorded);
        recorded
    }

    /// Apply a request from the control surface. Starting and stopping only
    /// happen while the recorder is active.
    pub fn apply_message(&mut self, message: MessageToRecorder) -> (r: RecorderAction)
        requires
            old(self).wf(),
        ensures
            final(self).wf(),
            match message {
                MessageToRecorder::StartRecording => {
                    &&& r is Nothing
                    &&& final(self).recording_spec() == (old(self).recording_spec()
                        || old(self).active_spec())
                    &&& final(self).buffer() == old(self).buffer()
                    &&& final(self).controls() == old(self).controls()
                    &&& final(self).active_spec() == old(self).active_spec()
                    &&& final(self).key_change_spec() == old(self).key_change_spec()
                    &&& final(self).prefix_spec() == old(self).prefix_spec()
                },
                MessageToRecorder::StopRecordeing => {
                    &&& if old(self).recording_spec() && old(self).active_spec() {
                        &&& r is Save
                        &&& r->Save_0@ == old(self).buffer()
                        &&& !final(self).recording_spec()
                        &&& final(self).buffer() == Seq::<i16>::empty()
                    } else {
                        &&& r is Nothing
                        &&& final(self).recording_spec() == old(self).recording_spec()
                        &&& final(self).buffer() == old(self).buffer()
                    }
                    &&& final(self).controls() == old(self).controls()
                    &&& final(self).active_spec() == old(self).active_spec()
                    &&& final(self).key_change_spec() == old(self).key_change_spec()
                    &&& final(self).prefix_spec() == old(self).prefix_spec()
                },
                MessageToRecorder::NewPrefix(p) => {
                    &&& r is Nothing
                    &&& final(self).prefix_spec() == p@
                    &&& final(self).recording_spec() == old(self).recording_spec()
                    &&& final(self).buffer() == old(self).buffer()
                    &&& final(self).controls() == old(self).controls()
                    &&& final(self).active_spec() == old(self).active_spec()
                    &&& final(self).key_change_spec() == old(self).key_change_spec()
                },
                MessageToRecorder::ChangeRecord => {
                    &&& r is Nothing
                    &&& final(self).key_change_spec()
                    &&& final(self).prefix_spec() == old(self).prefix_spec()
                    &&& final(self).recording_spec() == old(self).recording_spec()
                    &&& final(self).buffer() == old(self).buffer()
                    &&& final(self).controls() == old(self).controls()
                    &&& final(self).active_spec() == old(self).active_spec()
                },
                MessageToRecorder::DiscardRecordKey => {
                    &&& r is Nothing
                    &&& !final(self).key_change_spec()
                    &&& final(self).controls() == without_key(old(self).controls(), KeyBoardKey::Record)
                    &&& final(self).prefix_spec() == old(self).prefix_spec()
                    &&& final(self).recording_spec() == old(self).recording_spec()
                    &&& final(self).buffer() == old(self).buffer()
                    &&& final(self).active_spec() == old(self).active_spec()
                },
                MessageToRecorder::Active(a) => {
                    &&& r is Nothing
                    &&& final(self).active_spec() == a
                    &&& final(self).key_change_spec() == old(self).key_change_spec()
                    &&& final(self).controls() == old(self).controls()
                    &&& final(self).prefix_spec() == old(self).prefix_spec()
                    &&& final(self).recording_spec() == old(self).recording_spec()
                    &&& final(self).buffer() == old(self).buffer()
                },
            },
    {
        match message {
            MessageToRecorder::StartRecording => {
                if !self.recording && self.active {
                    self.recording = true;
                }
                RecorderAction::Nothing
            },
            MessageToRecorder::StopRecordeing => {
                if self.recording && self.active {
                    RecorderAction::Save(self.stop())
                } else {
                    RecorderAction::Nothing
                }
            },
            MessageToRecorder::NewPrefix(prefix) => {
                self.audio_prefix = prefix;
                RecorderAction::Nothing
            },
            MessageToRecorder::ChangeRecord => {
                self.key_change = true;
                RecorderAction::Nothing
            },
            MessageToRecorder::DiscardRecordKey => {
                self.key_change = false;
                self.keyboard.clear_key(KeyBoardKey::Record);
                RecorderAction::Nothing
            },
            MessageToRecorder::Active(value) => {
                self.active = value;
                RecorderAction::Nothing
            },
        }
    }

    /// Act on one MIDI event. An awaited controller becomes the record switch;
    /// otherwise, while active, a press of the switch starts a recording or
    /// stops the one in progress.
    pub fn handle_midi(&mut self, event: MidiInput) -> (r: RecorderAction)
        requires
            old(self).wf(),
        ensures
            final(self).wf(),
            final(self).active_spec() == old(self).active_spec(),
            final(self).prefix_spec() == old(self).prefix_spec(),
            match event {
                MidiInput::Controller { control, value, .. } => if old(self).key_change_spec() {
                    &&& r is Nothing
                    &&& !final(self).key_change_spec()
                    &&& final(self).controls() == bind(
                        old(self).controls(),
                        KeyBoardKey::Record,
                        control,
                    )
                    &&& final(self).recording_spec() == old(self).recording_spec()
                    &&& final(self).buffer() == old(self).buffer()
                } else {
                    let pressed = value > 0 && old(self).active_spec() && old(
                        self,
                    ).controls().contains_key(control) && old(self).controls()[control]
                        == KeyBoardKey::Record;
                    &&& !final(self).key_change_spec()
                    &&& final(self).controls() == old(self).controls()
                    &&& if !pressed {
                        &&& r is Nothing
                        &&& final(self).recording_spec() == old(self).recording_spec()
                        &&& final(self).buffer() == old(self).buffer()
                    } else if old(self).recording_spec() {
                        &&& r is Save
                        &&& r->Save_0@ == old(self).buffer()
                        &&& !final(self).recording_spec()
                        &&& final(self).buffer() == Seq::<i16>::empty()
                    } else {
                        &&& r is Started
                        &&& final(self).recording_spec()
                        &&& final(self).buffer() == old(self).buffer()
                    }
                },
                _ => {
                    &&& r is Nothing
                    &&& final(self).key_change_spec() == old(self).key_change_spec()
                    &&& final(self).controls() == old(self).controls()
                    &&& final(self).recording_spec() == old(self).recording_spec()
                    &&& final(self).buffer() == old(self).buffer()
                },
            },
    {
        if let MidiInput::Controller { control, value, .. } = event {
            if self.key_change {
                self.keyboard.update_key(KeyBoardKey::Record, control);
                self.key_change = false;
            } else if self.keyboard.get_keyboard_key(control) == Some(KeyBoardKey::Record) && value
                > 0 && self.active {
                if self.recording {
                    return RecorderAction::Save(self.stop());
                } else {
                    self.recording = true;
                    return RecorderAction::Started;
                }
            }
        }
        RecorderAction::Nothing
    }

    /// Append a block of samples to the recording, while one is in progress
    /// and the recorder is active.
    pub fn record(&mut self, samples: &[i16])
        requires
            old(self).wf(),
        ensures
            final(self).wf(),
            final(self).buffer() == if old(self).recording_spec() && old(self).active_spec() {
                old(self).buffer() + samples@
            } else {
                old(self).buffer()
            },
            final(self).recording_spec() == old(self).recording_spec(),
            final(self).active_spec() == old(self).active_spec(),
            final(self).key_change_spec() == old(self).key_change_spec(),
            final(self).controls() == old(self).controls(),
            final(self).prefix_spec() == old(self).prefix_spec(),
    {
        if self.recording && self.active {
            let mut i: usize = 0;
            while i < samples.len()
                invariant
                    i <= samples@.len(),
                    self.record_buffer@ == old(self).record_buffer@ + samples@.subrange(0, i as int),
                    self.recording == old(self).recording,
                    self.active == old(self).active,
                    self.key_change == old(self).key_change,
                    self.keyboard == old(self).keyboard,
                    self.audio_prefix == old(self).audio_prefix,
                    self.capacity == old(self).capacity,
                decreases samples@.len() - i,
            {
                self.record_buffer.push(samples[i]);
                i = i + 1;
                assert(samples@.subrange(0, i as int) =~= samples@.subrange(0, i - 1 as int).push(
                    samples@[i - 1],
                ));
            }
            assert(samples@.subrange(0, samples@.len() as int) =~= samples@);
        }
    }
}

} // verus!
