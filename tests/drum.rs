use rsuite::drum::{
    DrumEngine, DrumMessage, DrumNotice, EnvelopeConfig, EnvelopeShape, VoicePool,
};
use rsuite::hardware::KeyBoardKey;
use rsuite::midiinput::MidiInput;

fn note(velocity: u8, note_index: usize) -> MidiInput {
    MidiInput::NoteStart { channel: 0, note_index, timing: 0, velocity }
}

fn gain(frame: &rsuite::drum::VoiceFrame) -> f64 {
    frame.gain_num as f64 / frame.gain_den as f64
}

#[test]
fn envelope_ends() {
    let shape = EnvelopeShape { attack: 50, duration: 2205, decay: 50 };
    let total = shape.total();
    assert_eq!(total, 2305);
    let volume = 0.5;
    let at = |left: usize| {
        let (n, d) = shape.gain(left);
        volume * n as f64 / d as f64
    };
    assert_eq!(at(total), 0.0);
    assert_eq!(at(50 + 2205), 0.5);
    assert_eq!(at(0), 0.0);
    assert_eq!(at(25), 0.25);
    assert_eq!(at(total - 10), 0.5 * 10.0 / 50.0);
}

#[test]
fn second_note_takes_the_next_free_slot() {
    let mut pool = VoicePool::new();
    assert_eq!(pool.len(), 128);
    let shape = EnvelopeShape { attack: 2, duration: 3, decay: 2 };
    let a = pool.trigger(100, shape);
    pool.advance();
    let b = pool.trigger(120, shape);
    assert_eq!(a, 0);
    assert_eq!(b, 1);
    let fa = pool.frame(a).unwrap();
    let fb = pool.frame(b).unwrap();
    assert_eq!(fa.elapsed, 1);
    assert_eq!(fb.elapsed, 0);
    pool.advance();
    // Both notes sound at this frame.
    assert!(pool.frame(a).unwrap().gain_num > 0);
    assert!(pool.frame(b).unwrap().gain_num > 0);
}

#[test]
fn full_pool_grows() {
    let mut pool = VoicePool::new();
    let shape = EnvelopeShape { attack: 1, duration: 1, decay: 1 };
    for i in 0..128 {
        assert_eq!(pool.trigger(1, shape), i);
    }
    assert_eq!(pool.trigger(1, shape), 128);
    assert_eq!(pool.len(), 129);
    for _ in 0..3 {
        pool.advance();
    }
    assert_eq!(pool.frame(5), None);
    assert_eq!(pool.trigger(1, shape), 0);
}

#[test]
fn kick_end_to_end() {
    let rate = 44100;
    let conf = EnvelopeConfig::kick(rate);
    assert_eq!(conf.shape(), EnvelopeShape { attack: 50, duration: 2205, decay: 50 });
    let mut engine = DrumEngine::new(conf);
    assert_eq!(engine.handle_midi(note(255, 48)), DrumNotice::Nothing);
    let total = 2305;
    let mut previous = -1.0;
    let mut peak: f64 = 0.0;
    for i in 0..=total {
        let frame = engine.voice_frame(0);
        if i == total {
            assert_eq!(frame, None);
            break;
        }
        let f = frame.unwrap();
        assert_eq!(f.elapsed, i);
        assert_eq!(f.total, total);
        assert_eq!(f.velocity, 255);
        let g = gain(&f);
        if i < 50 {
            assert!(g > previous);
        } else if i <= 2255 {
            assert_eq!(g, 1.0);
        } else {
            assert!(g < previous);
        }
        peak = peak.max(g);
        previous = g;
        engine.advance();
    }
    assert_eq!(peak, 1.0);
}

#[test]
fn voices_keep_the_envelope_they_started_with() {
    let mut engine = DrumEngine::new(EnvelopeConfig::snare(44100));
    engine.handle_midi(note(10, 40));
    let before = engine.voice_frame(0).unwrap();
    engine.apply_message(DrumMessage::NewConfig(EnvelopeConfig::kick(8000)));
    engine.advance();
    let after = engine.voice_frame(0).unwrap();
    assert_eq!(after.total, before.total);
    assert_eq!(after.elapsed, 1);
    engine.handle_midi(note(10, 41));
    assert_eq!(engine.voice_frame(1).unwrap().total, 50 + 400 + 50);
}

#[test]
fn controllers_drive_the_envelope() {
    let mut engine = DrumEngine::new(EnvelopeConfig::snare(44100));
    let control = |control: u8, value: u8| MidiInput::Controller { channel: 0, control, value };
    engine.apply_message(DrumMessage::ChangeActivationMidiKey(KeyBoardKey::FadeInDuration));
    assert_eq!(engine.handle_midi(control(21, 3)), DrumNotice::Nothing);
    assert_eq!(engine.handle_midi(control(21, 64)), DrumNotice::ConfigChanged);
    assert_eq!(engine.config().attack().get_value(), 64);
    assert_eq!(engine.handle_midi(control(21, 64)), DrumNotice::Nothing);
    engine.apply_message(DrumMessage::ChangeActivationMidiKey(KeyBoardKey::Gain));
    engine.handle_midi(control(22, 0));
    assert_eq!(
        engine.handle_midi(control(22, 90)),
        DrumNotice::OtherControl(KeyBoardKey::Gain, 90)
    );
    engine.apply_message(DrumMessage::ClearActivationMidiKey(KeyBoardKey::FadeInDuration));
    assert_eq!(engine.handle_midi(control(21, 1)), DrumNotice::Nothing);
    assert_eq!(engine.config().attack().get_value(), 64);
}

#[test]
fn kick_envelope_keys() {
    let mut conf = EnvelopeConfig::kick(44100);
    assert_eq!(conf.apply_midi(KeyBoardKey::FadeInDuration, 10), Some(true));
    assert_eq!(conf.attack().get_value(), 10);
    assert_eq!(conf.decay().get_value(), 50);
    assert_eq!(conf.apply_midi(KeyBoardKey::FadeOutDuration, 64), Some(true));
    assert_eq!(conf.decay().get_value(), 64);
    assert_eq!(conf.attack().get_value(), 10);
    assert_eq!(conf.apply_midi(KeyBoardKey::Duration, 64), Some(true));
    assert_eq!(conf.duration().get_value(), 44100);
    assert_eq!(conf.apply_midi(KeyBoardKey::Gain, 64), None);
}
