use rsuite::activate::{Activator, ActivatorNotice, MessageToActivator};
use rsuite::hardware::KeyBoardKey;
use rsuite::metronome::{Click, MessageToMetronome, Metronome, MetronomeConfiguration};
use rsuite::midiinput::MidiInput;
use rsuite::recorder::{MessageToRecorder, Recorder, RecorderAction};
use rsuite::transposer::{MessageToTransposer, Transposer};

fn control(control: u8, value: u8) -> MidiInput {
    MidiInput::Controller { channel: 0, control, value }
}

#[test]
fn metronome_clicks_on_the_beat() {
    let mut m = Metronome::new(44100);
    assert_eq!(m.configuration(), MetronomeConfiguration::default());
    assert_eq!(m.tick(), Some(Click { fade: 0, high: true, frame: 0 }));
    let mut ticks = 1usize;
    while m.tick().is_some() {
        ticks += 1;
    }
    assert_eq!(ticks, 4410);
    ticks += 1;
    loop {
        let t = m.tick();
        ticks += 1;
        if let Some(c) = t {
            assert!(!c.high);
            break;
        }
    }
    // The click of the second beat starts 44100 * 60 / 110 frames after the bar.
    assert_eq!(ticks, 24054 + 2);
}

#[test]
fn metronome_controllers() {
    let mut m = Metronome::new(44100);
    m.apply_message(MessageToMetronome::SetKey(KeyBoardKey::Tempo));
    m.handle_midi(control(20, 0));
    m.handle_midi(control(20, 64));
    assert_eq!(m.configuration().bpm, 110);
    m.handle_midi(control(20, 64));
    assert_eq!(m.configuration().bpm, 150);
    m.apply_message(MessageToMetronome::SetKey(KeyBoardKey::Activate));
    m.handle_midi(control(21, 1));
    m.handle_midi(control(21, 1));
    assert!(!m.configuration().active);
    assert_eq!(m.tick(), None);
    m.apply_message(MessageToMetronome::Active(true));
    assert!(m.configuration().active);
    m.apply_message(MessageToMetronome::NewConfiguration(MetronomeConfiguration {
        bpm: 60,
        nb_notes: 3,
        active: false,
    }));
    assert_eq!(m.configuration().nb_notes, 3);
}

#[test]
fn transposer_moves_notes() {
    let mut t = Transposer::new();
    t.apply_message(MessageToTransposer::TransposeLevel(15));
    assert_eq!(t.transpose(), 2);
    let out = t.handle_midi(MidiInput::NoteStart { channel: 1, note_index: 60, timing: 4, velocity: 9 });
    assert_eq!(
        out.forward,
        Some(MidiInput::NoteStart { channel: 1, note_index: 62, timing: 4, velocity: 9 })
    );
    assert!(!out.level_changed);
    let out = t.handle_midi(MidiInput::PitchBend { value: 3 });
    assert_eq!(out.forward, None);
}

#[test]
fn transposer_controllers() {
    let mut t = Transposer::new();
    t.apply_message(MessageToTransposer::ChangeActivationMidiKey(KeyBoardKey::TransposeUp));
    let out = t.handle_midi(control(40, 127));
    assert!(out.level_changed);
    assert_eq!(t.transpose(), 1);
    t.apply_message(MessageToTransposer::ChangeActivationMidiKey(KeyBoardKey::TransposeDown));
    t.handle_midi(control(41, 0));
    assert_eq!(t.transpose(), 1);
    assert!(t.handle_midi(control(41, 1)).level_changed);
    assert_eq!(t.transpose(), 0);
    t.handle_midi(control(41, 1));
    assert_eq!(t.transpose(), 12);
    // Down then up gives the level back.
    for level in 0..13 {
        t.apply_message(MessageToTransposer::TransposeLevel(level));
        t.handle_midi(control(41, 1));
        t.handle_midi(control(40, 1));
        assert_eq!(t.transpose(), level);
    }
    t.apply_message(MessageToTransposer::TransposeLevel(12));
    t.handle_midi(control(40, 1));
    t.handle_midi(control(40, 1));
    assert_eq!(t.transpose(), 1);
    t.apply_message(MessageToTransposer::ClearActivationMidiKey(KeyBoardKey::TransposeUp));
    assert!(!t.handle_midi(control(40, 1)).level_changed);
}

#[test]
fn activator_switch() {
    let mut a = Activator::new();
    assert!(a.is_active());
    a.apply_message(MessageToActivator::ChangeActivationMidiKey);
    assert_eq!(a.handle_midi(control(30, 127)), ActivatorNotice::ShowMidiBlocked);
    assert!(!a.is_active());
    assert_eq!(a.handle_midi(control(30, 0)), ActivatorNotice::Nothing);
    assert_eq!(a.handle_midi(control(30, 5)), ActivatorNotice::ShowMidiThrough);
    assert_eq!(a.handle_midi(control(31, 5)), ActivatorNotice::Nothing);
    a.apply_message(MessageToActivator::BlockMidi);
    assert!(!a.is_active());
    a.apply_message(MessageToActivator::LetMidiThrough);
    assert!(a.is_active());
}

#[test]
fn recorder_records_between_presses() {
    let mut r = Recorder::new(16);
    assert_eq!(r.prefix(), "Rec");
    assert!(matches!(r.apply_message(MessageToRecorder::ChangeRecord), RecorderAction::Nothing));
    assert!(matches!(r.handle_midi(control(50, 127)), RecorderAction::Nothing));
    assert!(!r.is_recording());
    r.record(&[9, 9]);
    assert!(matches!(r.handle_midi(control(50, 127)), RecorderAction::Started));
    r.record(&[1, 2]);
    r.record(&[3]);
    match r.handle_midi(control(50, 1)) {
        RecorderAction::Save(samples) => assert_eq!(samples, vec![1, 2, 3]),
        _ => panic!("the recording should stop"),
    }
    assert!(!r.is_recording());
    r.apply_message(MessageToRecorder::NewPrefix(String::from("take")));
    assert_eq!(r.prefix(), "take");
    r.apply_message(MessageToRecorder::StartRecording);
    r.record(&[-4]);
    match r.apply_message(MessageToRecorder::StopRecordeing) {
        RecorderAction::Save(samples) => assert_eq!(samples, vec![-4]),
        _ => panic!("the recording should stop"),
    }
    r.apply_message(MessageToRecorder::Active(false));
    r.apply_message(MessageToRecorder::StartRecording);
    assert!(!r.is_recording());
    r.apply_message(MessageToRecorder::Active(true));
    r.apply_message(MessageToRecorder::DiscardRecordKey);
    assert!(matches!(r.handle_midi(control(50, 127)), RecorderAction::Nothing));
}
