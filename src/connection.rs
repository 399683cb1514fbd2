use vstd::prelude::*;

verus! {

/// The kinds of port an instrument connects to the audio server.
#[derive(Clone, Copy, Debug, PartialEq, Eq, Structural)]
pub enum ConnectionType {
    MidiIn,
    MidiOut,
    AudioIn,
    AudioOut,
}

/// The kinds of port the smoothing filter connects.
#[derive(Clone, Copy, Debug, PartialEq, Eq, Structural)]
pub enum Connection {
    MidiIn,
    AudioIn,
    AudioOut,
}

} // verus!
