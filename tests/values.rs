use rsuite::configuration::{UsizeValueInRange, WaveTypeValue};
use rsuite::hardware::KeyBoardKey;
use rsuite::wavetype::WaveType;

#[test]
fn wave_types_cycle() {
    assert_eq!(WaveType::Sin.cycle(), WaveType::Square);
    assert_eq!(WaveType::Square.cycle(), WaveType::SawTooth);
    assert_eq!(WaveType::SawTooth.cycle(), WaveType::Triangle);
    assert_eq!(WaveType::Triangle.cycle(), WaveType::Sin);
    assert_eq!(WaveType::default(), WaveType::Sin);
    assert_eq!(WaveType::SawTooth.name(), "SawTooth");
}

#[test]
fn usize_value_from_controller() {
    let mut v = UsizeValueInRange::new(50, 0, 128, "attack", KeyBoardKey::FadeInDuration);
    assert_eq!(v.get_value(), 50);
    assert_eq!(v.get_keyboard_key(), KeyBoardKey::FadeInDuration);
    assert_eq!(v.name(), "attack");
    assert!(v.from_midi_value(64));
    assert_eq!(v.get_value(), 64);
    assert!(!v.from_midi_value(64));
    let mut d = UsizeValueInRange::new(2205, 0, 88200, "duration", KeyBoardKey::Duration);
    assert!(d.from_midi_value(127));
    assert_eq!(d.get_value(), 127 * 88200 / 128);
    // The position counts from the start of the range and stays within it.
    let mut s = UsizeValueInRange::new(300, 100, 356, "shifted", KeyBoardKey::Gain);
    assert!(s.from_midi_value(1));
    assert_eq!(s.get_value(), 102);
    assert!(s.from_midi_value(0));
    assert_eq!(s.get_value(), 100);
    assert!(s.from_midi_value(127));
    assert_eq!(s.get_value(), 100 + 127 * 256 / 128);
    assert!(s.from_midi_value(255));
    assert_eq!(s.get_value(), 356);
    let mut r = UsizeValueInRange::new(15, 10, 20, "narrow", KeyBoardKey::Gain);
    assert!(r.from_midi_value(0));
    assert_eq!(r.get_value(), 10);
}

#[test]
fn wave_type_value_from_controller() {
    let mut w = WaveTypeValue::new("base wave", KeyBoardKey::WaveSelection);
    assert_eq!(w.get_value(), WaveType::Sin);
    assert!(!w.from_midi_value(0));
    assert_eq!(w.get_value(), WaveType::Sin);
    assert!(w.from_midi_value(1));
    assert_eq!(w.get_value(), WaveType::Square);
    assert_eq!(w.get_keyboard_key(), KeyBoardKey::WaveSelection);
}
