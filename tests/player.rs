use rsuite::hardware::{HardWare, KeyBoardKey};
use rsuite::midiinput::MidiInput;
use rsuite::player::{MessageToPlayer, Player, PlayerConfig, PlayerRequest, FADE_FULL, NB_NOTES};
use rsuite::wavetype::WaveType;

fn start(note_index: usize, velocity: u8) -> MidiInput {
    MidiInput::NoteStart { channel: 0, note_index, timing: 0, velocity }
}

fn end(note_index: usize) -> MidiInput {
    MidiInput::NoteEnd { channel: 0, note_index, timing: 0, velocity: 0 }
}

fn control(control: u8, value: u8) -> MidiInput {
    MidiInput::Controller { channel: 0, control, value }
}

#[test]
fn pitch_bend_dilation() {
    let mut p = Player::new(44100, HardWare::new());
    assert_eq!(p.time_dilation(), 64);
    for (value, expected) in [(0u8, 0.0), (63, 63.0 / 64.0), (64, 1.0), (127, 1.984375)] {
        assert!(!p.handle_midi(MidiInput::PitchBend { value }));
        assert_eq!(p.time_dilation() as f64 / 64.0, expected);
    }
}

#[test]
fn restruck_note_resumes_from_fade_out() {
    let mut p = Player::new(44100, HardWare::new());
    let n = p.note(60);
    assert_eq!((n.playing, n.fade_in, n.fade_out), (false, FADE_FULL, 0));
    p.handle_midi(start(60, 100));
    assert_eq!(p.note(60).fade_in, 0);
    assert_eq!(p.note(60).velocity, 100);
    let (in_step, out_step) = p.fade_steps();
    // Fade in to about 0.4.
    let steps = (FADE_FULL as u64 * 2 / 5 / in_step as u64) as usize;
    for _ in 0..steps {
        let (level, rising) = p.advance_note(60, in_step, out_step);
        assert!(rising);
        assert!(level < FADE_FULL);
    }
    let mid = p.note(60).fade_in;
    assert!(mid > FADE_FULL / 3 && mid < FADE_FULL / 2);
    p.handle_midi(end(60));
    let released = p.note(60);
    assert!(!released.playing);
    assert_eq!(released.fade_out, FADE_FULL);
    p.handle_midi(start(60, 30));
    let n = p.note(60);
    assert!(n.playing);
    assert_eq!(n.fade_in, released.fade_out);
    assert_eq!(n.velocity, 30);
}

#[test]
fn struck_note_keeps_its_velocity_while_held() {
    let mut p = Player::new(44100, HardWare::new());
    p.handle_midi(start(20, 90));
    p.handle_midi(start(20, 10));
    assert_eq!(p.note(20).velocity, 90);
    // Notes past the last slot are ignored.
    p.handle_midi(start(NB_NOTES, 10));
    p.handle_midi(end(NB_NOTES + 5));
}

#[test]
fn fades_move_by_their_steps() {
    let mut p = Player::new(44100, HardWare::new());
    let (in_step, out_step) = p.fade_steps();
    assert_eq!(in_step, 16_777_216 * 40 / (44100 * 4));
    assert_eq!(out_step, in_step);
    p.handle_midi(start(5, 1));
    assert_eq!(p.advance_note(5, in_step, out_step), (0, true));
    assert_eq!(p.advance_note(5, in_step, out_step), (in_step, true));
    p.handle_midi(end(5));
    // Released while fading in: the fade in completes first.
    let mut last = (0, true);
    while last.1 {
        last = p.advance_note(5, in_step, out_step);
    }
    assert_eq!(last, (FADE_FULL, false));
    assert_eq!(p.advance_note(5, in_step, out_step), (FADE_FULL - out_step, false));
    let mut level = FADE_FULL;
    while level > 0 {
        level = p.advance_note(5, in_step, out_step).0;
    }
    assert_eq!(p.advance_note(5, in_step, out_step), (0, false));
}

#[test]
fn controllers_change_the_settings() {
    let mut p = Player::new(44100, HardWare::default());
    assert!(p.handle_midi(control(10, 7)));
    assert_eq!(p.config().fade_in_duration, 8);
    assert!(!p.handle_midi(control(10, 7)));
    assert!(p.handle_midi(control(74, 64)));
    assert_eq!(p.config().overtone[0], 64);
    assert!(p.handle_midi(control(95, 15)));
    assert_eq!(p.config().gain, 128);
    assert!(p.handle_midi(control(113, 1)));
    assert_eq!(p.config().wave, WaveType::Square);
    assert!(!p.handle_midi(control(113, 0)));
    assert!(!p.handle_midi(control(1, 50)));
    let (in_step, _) = p.fade_steps();
    assert_eq!(in_step, 16_777_216 * 40 / (44100 * 8));
}

#[test]
fn messages_bind_and_replace() {
    let mut p = Player::new(48000, HardWare::new());
    assert_eq!(p.apply_message(MessageToPlayer::NewKeyboardKey(KeyBoardKey::Gain)), PlayerRequest::Nothing);
    assert!(p.handle_midi(control(33, 0)));
    assert_eq!(p.config().gain, 8);
    assert_eq!(p.keyboard().get_keyboard_key(33), Some(KeyBoardKey::Gain));
    p.apply_message(MessageToPlayer::ClearKeybaordKey(KeyBoardKey::Gain));
    assert_eq!(p.keyboard().get_keyboard_key(33), None);
    let mut conf = PlayerConfig::new();
    conf.fade_out_duration = 40;
    p.apply_message(MessageToPlayer::NewConfiguration(conf.clone()));
    assert_eq!(p.config(), &conf);
    assert_eq!(p.apply_message(MessageToPlayer::SaveConf), PlayerRequest::Save);
    assert_eq!(p.apply_message(MessageToPlayer::LoadConf), PlayerRequest::Load);
    p.set_keyboard(HardWare::default());
    p.apply_message(MessageToPlayer::ClearAllKeyboardKeys);
    assert_eq!(p.keyboard().get_keyboard_key(10), None);
}

#[test]
fn default_settings() {
    let c = PlayerConfig::new();
    assert_eq!(c.overtone, vec![128, 0, 0, 0, 0, 0, 0, 0, 0]);
    assert_eq!((c.fade_in_duration, c.fade_out_duration, c.gain), (4, 4, 127));
}
