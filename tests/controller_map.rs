use rsuite::drum::DrumMessage;
use rsuite::hardware::{HardWare, KeyBoardKey, KeyBoardKeySetter};
use rsuite::metronome::MessageToMetronome;
use rsuite::player::MessageToPlayer;
use rsuite::recorder::MessageToRecorder;
use rsuite::transposer::MessageToTransposer;

#[test]
fn rebinding_a_key_frees_its_old_controller() {
    let mut h = HardWare::new();
    h.update_key(KeyBoardKey::FadeInDuration, 10);
    h.update_key(KeyBoardKey::FadeInDuration, 20);
    assert_eq!(h.get_keyboard_key(10), None);
    assert_eq!(h.get_keyboard_key(20), Some(KeyBoardKey::FadeInDuration));
}

#[test]
fn binding_a_used_controller_moves_it() {
    let mut h = HardWare::new();
    h.update_key(KeyBoardKey::Gain, 5);
    h.update_key(KeyBoardKey::Record, 5);
    assert_eq!(h.get_keyboard_key(5), Some(KeyBoardKey::Record));
    // Gain no longer has a controller: clearing it must not touch controller 5.
    h.clear_key(KeyBoardKey::Gain);
    assert_eq!(h.get_keyboard_key(5), Some(KeyBoardKey::Record));
}

#[test]
fn clear_key_and_clear_all() {
    let mut h = HardWare::new();
    h.update_key(KeyBoardKey::Play, 117);
    h.update_key(KeyBoardKey::Stop, 116);
    h.clear_key(KeyBoardKey::Play);
    assert_eq!(h.get_keyboard_key(117), None);
    assert_eq!(h.get_keyboard_key(116), Some(KeyBoardKey::Stop));
    h.clear_key(KeyBoardKey::Play);
    assert_eq!(h.get_keyboard_key(116), Some(KeyBoardKey::Stop));
    h.clear_all();
    assert_eq!(h.get_keyboard_key(116), None);
}

#[test]
fn new_table_is_empty() {
    let h = HardWare::new();
    for c in 0..=255u8 {
        assert_eq!(h.get_keyboard_key(c), None);
    }
}

#[test]
fn default_table() {
    let h = HardWare::default();
    assert_eq!(h.get_keyboard_key(113), Some(KeyBoardKey::WaveSelection));
    assert_eq!(h.get_keyboard_key(74), Some(KeyBoardKey::Overtone(0)));
    assert_eq!(h.get_keyboard_key(7), Some(KeyBoardKey::Overtone(8)));
    assert_eq!(h.get_keyboard_key(10), Some(KeyBoardKey::FadeInDuration));
    assert_eq!(h.get_keyboard_key(95), Some(KeyBoardKey::Gain));
    assert_eq!(h.get_keyboard_key(116), Some(KeyBoardKey::Stop));
    assert_eq!(h.get_keyboard_key(0), None);
    let bound = (0..=255u8).filter(|c| h.get_keyboard_key(*c).is_some()).count();
    assert_eq!(bound, 18);
}

#[test]
fn key_codes_are_distinct() {
    let mut keys = vec![
        KeyBoardKey::WaveSelection,
        KeyBoardKey::FadeInDuration,
        KeyBoardKey::FadeInShape,
        KeyBoardKey::FadeOutDuration,
        KeyBoardKey::FadeOutShape,
        KeyBoardKey::Gain,
        KeyBoardKey::Record,
        KeyBoardKey::Play,
        KeyBoardKey::Stop,
        KeyBoardKey::TransposeUp,
        KeyBoardKey::TransposeDown,
        KeyBoardKey::Parameter,
        KeyBoardKey::Modulation,
        KeyBoardKey::ModulationSpeed,
        KeyBoardKey::ModulationIntensity,
        KeyBoardKey::Duration,
        KeyBoardKey::Activate,
        KeyBoardKey::Tempo,
    ];
    for i in 0..=255u8 {
        keys.push(KeyBoardKey::Overtone(i));
    }
    let mut codes: Vec<u16> = keys.iter().map(|k| k.code()).collect();
    codes.sort();
    codes.dedup();
    assert_eq!(codes.len(), keys.len());
}

#[test]
fn setters_become_messages() {
    let bind = KeyBoardKeySetter::Bind(KeyBoardKey::Tempo);
    let clear = KeyBoardKeySetter::Clear(KeyBoardKey::Gain);
    assert!(matches!(MessageToPlayer::from(bind), MessageToPlayer::NewKeyboardKey(KeyBoardKey::Tempo)));
    assert!(matches!(MessageToPlayer::from(clear), MessageToPlayer::ClearKeybaordKey(KeyBoardKey::Gain)));
    assert!(matches!(DrumMessage::from(bind), DrumMessage::ChangeActivationMidiKey(KeyBoardKey::Tempo)));
    assert!(matches!(DrumMessage::from(clear), DrumMessage::ClearActivationMidiKey(KeyBoardKey::Gain)));
    assert!(matches!(MessageToMetronome::from(bind), MessageToMetronome::SetKey(KeyBoardKey::Tempo)));
    assert!(matches!(MessageToMetronome::from(clear), MessageToMetronome::ClearKey(KeyBoardKey::Gain)));
    assert!(matches!(
        MessageToTransposer::from(bind),
        MessageToTransposer::ChangeActivationMidiKey(KeyBoardKey::Tempo)
    ));
    assert!(matches!(
        MessageToTransposer::from(clear),
        MessageToTransposer::ClearActivationMidiKey(KeyBoardKey::Gain)
    ));
    assert!(matches!(MessageToRecorder::from(bind), MessageToRecorder::ChangeRecord));
    assert!(matches!(MessageToRecorder::from(clear), MessageToRecorder::DiscardRecordKey));
}

#[test]
fn save_and_load_bindings() {
    let mut h = HardWare::new();
    h.update_key(KeyBoardKey::Overtone(3), 93);
    h.update_key(KeyBoardKey::Gain, 5);
    assert_eq!(h.save(), vec![5, 5, 0, 93, 35, 0]);
    let back = HardWare::load(&h.save()).unwrap();
    assert_eq!(back.get_keyboard_key(5), Some(KeyBoardKey::Gain));
    assert_eq!(back.get_keyboard_key(93), Some(KeyBoardKey::Overtone(3)));
    assert_eq!(back.save(), h.save());

    let default = HardWare::default();
    let restored = HardWare::load(&default.save()).unwrap();
    for c in 0..=255u8 {
        assert_eq!(restored.get_keyboard_key(c), default.get_keyboard_key(c));
    }
}

#[test]
fn load_refuses_bad_bytes() {
    assert!(HardWare::load(&[1, 2]).is_none());
    assert!(HardWare::load(&[1, 20, 0]).is_none());
    assert!(HardWare::load(&[1, 32, 1, 2, 0, 2]).is_none());
    let h = HardWare::load(&[]).unwrap();
    assert_eq!(h.get_keyboard_key(0), None);
    // A later binding of the same key wins.
    let h = HardWare::load(&[1, 5, 0, 2, 5, 0]).unwrap();
    assert_eq!(h.get_keyboard_key(1), None);
    assert_eq!(h.get_keyboard_key(2), Some(KeyBoardKey::Gain));
    assert_eq!(rsuite::hardware::key_from_code(287), Some(KeyBoardKey::Overtone(255)));
}
