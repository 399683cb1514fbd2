use rsuite::midiinput::{index_to_name, index_to_octave, MidiInput};

fn needs_three_bytes(status: u8) -> bool {
    matches!(status >> 4, 0x8 | 0x9 | 0xB | 0xE)
}

#[test]
fn midi_to_raw() {
    // Every 3-byte packet, and 4-byte packets whose last byte varies too.
    for i in 0..(1u32 << 24) {
        let d: Vec<u8> = i.to_le_bytes().into();
        let d = &d[..3];
        let input = MidiInput::from_raw(d, 0);
        let mut filled_bytes = vec![0; 4];
        let time = input.to_raw(&mut filled_bytes);
        assert_eq!(input, MidiInput::from_raw(&filled_bytes, time));
    }
    for i in (0..u32::MAX).step_by(65_521) {
        let d: Vec<u8> = i.to_le_bytes().into();
        let input = MidiInput::from_raw(&d, 7);
        let mut filled_bytes = vec![0; 4];
        let time = input.to_raw(&mut filled_bytes);
        assert_eq!(input, MidiInput::from_raw(&filled_bytes, time));
    }
}

#[test]
fn short_unknown_packets_round_trip() {
    for b0 in 0..=255u8 {
        if needs_three_bytes(b0) {
            continue;
        }
        for len in 1..=2usize {
            let d = [b0, 0x45];
            let input = MidiInput::from_raw(&d[..len], 3);
            let mut buf = vec![0xAA; 3];
            let time = input.to_raw(&mut buf);
            assert_eq!(input, MidiInput::from_raw(&buf, time));
        }
    }
}

#[test]
fn decode_note_start() {
    let e = MidiInput::from_raw(&[0x93, 60, 128], 17);
    assert_eq!(
        e,
        MidiInput::NoteStart { channel: 3, note_index: 72, timing: 17, velocity: 128 }
    );
}

#[test]
fn decode_note_end() {
    let e = MidiInput::from_raw(&[0x80, 0, 64, 99], 2);
    assert_eq!(e, MidiInput::NoteEnd { channel: 0, note_index: 12, timing: 2, velocity: 64 });
}

#[test]
fn decode_controller_and_pitch_bend() {
    assert_eq!(
        MidiInput::from_raw(&[0xB5, 10, 127], 9),
        MidiInput::Controller { channel: 5, control: 10, value: 127 }
    );
    assert_eq!(MidiInput::from_raw(&[0xE7, 1, 64], 9), MidiInput::PitchBend { value: 64 });
}

#[test]
fn decode_unknown_pads_with_zero() {
    assert_eq!(MidiInput::from_raw(&[0xF8], 0), MidiInput::Unknown { d1: 0xF8, d2: 0, d3: 0 });
    assert_eq!(
        MidiInput::from_raw(&[0x21, 7], 0),
        MidiInput::Unknown { d1: 0x21, d2: 7, d3: 0 }
    );
    assert_eq!(
        MidiInput::from_raw(&[0xC2, 7, 9, 11], 0),
        MidiInput::Unknown { d1: 0xC2, d2: 7, d3: 9 }
    );
}

#[test]
fn encode_note_and_controller() {
    let mut buf = vec![0; 3];
    let t = MidiInput::NoteStart { channel: 2, note_index: 72, timing: 40, velocity: 200 }
        .to_raw(&mut buf);
    assert_eq!(t, 40);
    assert_eq!(buf, vec![0x92, 60, 200]);

    let mut buf = vec![0; 4];
    let t = MidiInput::Controller { channel: 1, control: 74, value: 3 }.to_raw(&mut buf);
    assert_eq!(t, 0);
    assert_eq!(buf, vec![0xB1, 74, 3, 0]);
}

#[test]
fn encode_pitch_bend_keeps_middle_byte() {
    let mut buf = vec![9, 8, 7];
    let t = MidiInput::PitchBend { value: 100 }.to_raw(&mut buf);
    assert_eq!(t, 0);
    assert_eq!(buf, vec![0xE0, 8, 100]);
}

#[test]
fn note_names_and_octaves() {
    assert_eq!(index_to_name(0), "C ");
    assert_eq!(index_to_name(13), "C#");
    assert_eq!(index_to_name(57), "A ");
    assert_eq!(index_to_name(71), "B ");
    assert_eq!(index_to_octave(71), 5);
    assert_eq!(index_to_octave(11), 0);
}
