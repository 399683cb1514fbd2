use vstd::prelude::*;

verus! {

/// Only the first bytes of a packet carry what the decoder reads.
pub const MAX_MIDI: usize = 3;

/// The first note index that a packet can encode: index 0 to 11 stand one
/// octave below the lowest MIDI note.
pub const NOTE_OFFSET: usize = 12;

/// A decoded MIDI packet. Velocities are kept as the byte that carried them;
/// the velocity they stand for is that byte divided by 256.
#[derive(Clone, Copy, Debug, PartialEq, Eq, Structural)]
pub enum MidiInput {
    NoteStart { channel: u8, note_index: usize, timing: u32, velocity: u8 },
    NoteEnd { channel: u8, note_index: usize, timing: u32, velocity: u8 },
    Controller { channel: u8, control: u8, value: u8 },
    PitchBend { value: u8 },
    Unknown { d1: u8, d2: u8, d3: u8 },
}

/// The high nibble of a status byte names the kind of message.
pub open spec fn kind_of(status: u8) -> int {
    status as int / 16
}

/// Note on, note off, control change and pitch bend need three bytes.
pub open spec fn needs_three_bytes(status: u8) -> bool {
    kind_of(status) == 9 || kind_of(status) == 8 || kind_of(status) == 11 || kind_of(status) == 14
}

/// The packets that the transport may hand over.
pub open spec fn well_formed_packet(bytes: Seq<u8>) -> bool {
    &&& bytes.len() >= 1
    &&& needs_three_bytes(bytes[0]) ==> bytes.len() >= 3
}

/// The byte at `i`, or 0 past the end of the packet or of the bytes read.
pub open spec fn byte_or_zero(bytes: Seq<u8>, i: int) -> u8 {
    if i < bytes.len() && i < MAX_MIDI {
        bytes[i]
    } else {
        0
    }
}

/// What a packet decodes to.
pub open spec fn decode(bytes: Seq<u8>, time: u32) -> MidiInput {
    let status = bytes[0];
    let channel = (status % 16) as u8;
    if kind_of(status) == 9 {
        MidiInput::NoteStart {
            channel,
            note_index: (NOTE_OFFSET + bytes[1]) as usize,
            timing: time,
            velocity: bytes[2],
        }
    } else if kind_of(status) == 8 {
        MidiInput::NoteEnd {
            channel,
            note_index: (NOTE_OFFSET + bytes[1]) as usize,
            timing: time,
            velocity: bytes[2],
        }
    } else if kind_of(status) == 11 {
        MidiInput::Controller { channel, control: bytes[1], value: bytes[2] }
    } else if kind_of(status) == 14 {
        MidiInput::PitchBend { value: bytes[2] }
    } else {
        MidiInput::Unknown {
            d1: byte_or_zero(bytes, 0),
            d2: byte_or_zero(bytes, 1),
            d3: byte_or_zero(bytes, 2),
        }
    }
}

/// The events that can be encoded: a note below `NOTE_OFFSET` has no byte.
pub open spec fn encodable(e: MidiInput) -> bool {
    match e {
        MidiInput::NoteStart { note_index, .. } => note_index >= NOTE_OFFSET,
        MidiInput::NoteEnd { note_index, .. } => note_index >= NOTE_OFFSET,
        _ => true,
    }
}

/// The note byte of a note index; indices past the byte's range wrap around.
pub open spec fn note_byte(note_index: usize) -> u8 {
    ((note_index - NOTE_OFFSET) % 256) as u8
}

/// The buffer `buf` after `e` is written into its first three bytes. A pitch
/// bend leaves the middle byte as it was.
pub open spec fn encode_into(e: MidiInput, buf: Seq<u8>) -> Seq<u8> {
    match e {
        MidiInput::NoteStart { channel, note_index, velocity, .. } => buf.update(
            0,
            (0x90 + channel % 16) as u8,
        ).update(1, note_byte(note_index)).update(2, velocity),
        MidiInput::NoteEnd { channel, note_index, velocity, .. } => buf.update(
            0,
            (0x80 + channel % 16) as u8,
        ).update(1, note_byte(note_index)).update(2, velocity),
        MidiInput::Controller { channel, control, value } => buf.update(
            0,
            (0xB0 + channel % 16) as u8,
        ).update(1, control).update(2, value),
        MidiInput::PitchBend { value } => buf.update(0, 0xE0u8).update(2, value),
        MidiInput::Unknown { d1, d2, d3 } => buf.update(0, d1).update(1, d2).update(2, d3),
    }
}

/// The time stamp an encoded event carries: notes keep theirs, the rest get 0.
pub open spec fn encoded_time(e: MidiInput) -> u32 {
    match e {
        MidiInput::NoteStart { timing, .. } => timing,
        MidiInput::NoteEnd { timing, .. } => timing,
        _ => 0,
    }
}

impl MidiInput {
    /// Decode a raw packet received at `time`.
    pub fn from_raw(bytes: &[u8], time: u32) -> (r: MidiInput)
        requires
            well_formed_packet(bytes@),
        ensures
            r == decode(bytes@, time),
    {
        let len = if bytes.len() < MAX_MIDI {
            bytes.len()
        } else {
            MAX_MIDI
        };
        let header_byte = bytes[0];
        let kind = header_byte / 16;
        let channel = header_byte % 16;
        if kind == 9 {
            MidiInput::NoteStart {
                channel,
                note_index: NOTE_OFFSET + bytes[1] as usize,
                timing: time,
                velocity: bytes[2],
            }
        } else if kind == 8 {
            MidiInput::NoteEnd {
                channel,
                note_index: NOTE_OFFSET + bytes[1] as usize,
                timing: time,
                velocity: bytes[2],
            }
        } else if kind == 11 {
            MidiInput::Controller { channel, control: bytes[1], value: bytes[2] }
        } else if kind == 14 {
            MidiInput::PitchBend { value: bytes[2] }
        } else {
            MidiInput::Unknown {
                d1: bytes[0],
                d2: if len > 1 {
                    bytes[1]
                } else {
                    0
                },
                d3: if len > 2 {
                    bytes[2]
                } else {
                    0
                },
            }
        }
    }

    /// Write the event into the first three bytes of `bytes` and return the
    /// time stamp that goes with them.
    pub fn to_raw(&self, bytes: &mut Vec<u8>) -> (time: u32)
        requires
            old(bytes)@.len() >= 3,
            encodable(*self),
        ensures
            final(bytes)@ == encode_into(*self, old(bytes)@),
            time == encoded_time(*self),
    {
        match self {
            MidiInput::NoteStart { channel, note_index, timing, velocity } => {
                bytes.set(0, 0x90 + *channel % 16);
                bytes.set(1, ((*note_index - NOTE_OFFSET) % 256) as u8);
                bytes.set(2, *velocity);
                *timing
            },
            MidiInput::NoteEnd { channel, note_index, timing, velocity } => {
                bytes.set(0, 0x80 + *channel % 16);
                bytes.set(1, ((*note_index - NOTE_OFFSET) % 256) as u8);
                bytes.set(2, *velocity);
                *timing
            },
            MidiInput::Controller { channel, control, value } => {
                bytes.set(0, 0xB0 + *channel % 16);
                bytes.set(1, *control);
                bytes.set(2, *value);
                0
            },
            MidiInput::PitchBend { value } => {
                bytes.set(0, 0xE0);
                bytes.set(2, *value);
                0
            },
            MidiInput::Unknown { d1, d2, d3 } => {
                bytes.set(0, *d1);
                bytes.set(1, *d2);
                bytes.set(2, *d3);
                0
            },
        }
    }
}

/// Decoding a packet, encoding the event into any buffer of three bytes or
/// more and decoding that again gives the same event.
pub proof fn lemma_round_trip(bytes: Seq<u8>, time: u32, buf: Seq<u8>)
    requires
        well_formed_packet(bytes),
        buf.len() >= 3,
    ensures
        encodable(decode(bytes, time)),
        well_formed_packet(encode_into(decode(bytes, time), buf)),
        decode(encode_into(decode(bytes, time), buf), encoded_time(decode(bytes, time))) == decode(
            bytes,
            time,
        ),
{
    let e = decode(bytes, time);
    let out = encode_into(e, buf);
    assert(out[0] == (if kind_of(bytes[0]) == 9 || kind_of(bytes[0]) == 8 || kind_of(bytes[0]) == 11 {
        (kind_of(bytes[0]) * 16 + bytes[0] % 16) as u8
    } else if kind_of(bytes[0]) == 14 {
        0xE0u8
    } else {
        bytes[0]
    }));
}

/// The name of a note within its octave.
pub open spec fn note_name(index: usize) -> Seq<char> {
    let i = index % 12;
    if i == 0 {
        "C "@
    } else if i == 1 {
        "C#"@
    } else if i == 2 {
        "D "@
    } else if i == 3 {
        "D#"@
    } else if i == 4 {
        "E "@
    } else if i == 5 {
        "F "@
    } else if i == 6 {
        "F#"@
    } else if i == 7 {
        "G "@
    } else if i == 8 {
        "G#"@
    } else if i == 9 {
        "A "@
    } else if i == 10 {
        "A#"@
    } else {
        "B "@
    }
}

/// The name of a note, from its index.
pub fn index_to_name(index: usize) -> (r: &'static str)
    ensures
        r@ == note_name(index),
{
    let i = index % 12;
    if i == 0 {
        "C "
    } else if i == 1 {
        "C#"
    } else if i == 2 {
        "D "
    } else if i == 3 {
        "D#"
    } else if i == 4 {
        "E "
    } else if i == 5 {
        "F "
    } else if i == 6 {
        "F#"
    } else if i == 7 {
        "G "
    } else if i == 8 {
        "G#"
    } else if i == 9 {
        "A "
    } else if i == 10 {
        "A#"
    } else {
        "B "
    }
}

/// The octave of a note, from its index.
pub fn index_to_octave(index: usize) -> (r: usize)
    ensures
        r == index / 12,
{
    index / 12
}

} // verus!
