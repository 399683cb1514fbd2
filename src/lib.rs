use vstd::prelude::*;

pub mod activate;
pub mod configuration;
pub mod connection;
pub mod drum;
pub mod hardware;
pub mod metronome;
pub mod midiinput;
pub mod player;
pub mod recorder;
pub mod transposer;
pub mod wavetype;
pub mod wavwriter;
