use vstd::prelude::*;

verus! {

/// The shapes of periodic wave an oscillator can produce.
#[derive(Clone, Copy, Debug, PartialEq, Eq, Structural)]
pub enum WaveType {
    /// A smooth sinusoidal wave
    Sin,
    /// A wave that is either 1 or -1
    Square,
    /// A wave that rises linearly and drops at the end of each period
    SawTooth,
    /// A triangle shaped wave
    Triangle,
}

/// The wave that follows `w` when cycling through the wave types.
pub open spec fn next_wave(w: WaveType) -> WaveType {
    match w {
        WaveType::Sin => WaveType::Square,
        WaveType::Square => WaveType::SawTooth,
        WaveType::SawTooth => WaveType::Triangle,
        WaveType::Triangle => WaveType::Sin,
    }
}

impl WaveType {
    /// Cycle through the different wave types.
    pub fn cycle(&self) -> (r: WaveType)
        ensures
            r == next_wave(*self),
    {
        match self {
            WaveType::Sin => WaveType::Square,
            WaveType::Square => WaveType::SawTooth,
            WaveType::SawTooth => WaveType::Triangle,
            WaveType::Triangle => WaveType::Sin,
        }
    }

    /// The display name of the wave type.
    pub fn name(&self) -> (r: &'static str)
        ensures
            r@ == wave_name(*self),
    {
        match self {
            WaveType::Sin => "Sin",
            WaveType::Square => "Square",
            WaveType::SawTooth => "SawTooth",
            WaveType::Triangle => "Triangle",
        }
    }
}

/// The display name of a wave type.
pub open spec fn wave_name(w: WaveType) -> Seq<char> {
    match w {
        WaveType::Sin => "Sin"@,
        WaveType::Square => "Square"@,
        WaveType::SawTooth => "SawTooth"@,
        WaveType::Triangle => "Triangle"@,
    }
}

impl Default for WaveType {
    fn default() -> (r: WaveType)
        ensures
            r == WaveType::Sin,
    {
        WaveType::Sin
    }
}

} // verus!
