use crate::hardware::KeyBoardKey;
use crate::wavetype::{next_wave, WaveType};
use vstd::prelude::*;

verus! {

/// The value a controller position sets within `start..=end`: the start plus
/// the position's share of the width, in 128ths; positions past 128 stop at
/// the end.
pub open spec fn position_value(start: usize, end: usize, midi_value: u8) -> usize {
    let step = midi_value as int * (end - start) / 128;
    (start + if step > end - start {
        end - start
    } else {
        step
    }) as usize
}

/// A whole number that a controller can set within a range.
#[derive(Debug, Clone, PartialEq)]
pub struct UsizeValueInRange {
    /// The current value
    value: usize,
    /// The first value of the range
    start: usize,
    /// The last value of the range
    end: usize,
    /// The name of the value
    name: String,
    /// The keyboard key that is mapped to the value
    key: KeyBoardKey,
}

impl UsizeValueInRange {
    pub closed spec fn value_spec(&self) -> usize {
        self.value
    }

    pub closed spec fn start_spec(&self) -> usize {
        self.start
    }

    pub closed spec fn end_spec(&self) -> usize {
        self.end
    }

    pub closed spec fn key_spec(&self) -> KeyBoardKey {
        self.key
    }

    pub closed spec fn name_spec(&self) -> Seq<char> {
        self.name@
    }

    /// The width of the range.
    pub open spec fn span(&self) -> int {
        self.end_spec() - self.start_spec()
    }

    /// The value lies within the range.
    pub open spec fn wf(&self) -> bool {
        self.start_spec() <= self.value_spec() <= self.end_spec()
    }

    pub fn new(value: usize, start: usize, end: usize, name: &str, key: KeyBoardKey) -> (r:
        UsizeValueInRange)
        requires
            start <= value <= end,
        ensures
            r.wf(),
            r.value_spec() == value,
            r.start_spec() == start,
            r.end_spec() == end,
            r.key_spec() == key,
            r.name_spec() == name@,
    {
        UsizeValueInRange { value, start, end, name: name.to_owned(), key }
    }

    /// Take the value that the controller position `value` stands for; true
    /// when the value changed.
    pub fn from_midi_value(&mut self, value: u8) -> (changed: bool)
        requires
            old(self).wf(),
        ensures
            final(self).wf(),
            final(self).value_spec() == position_value(
                old(self).start_spec(),
                old(self).end_spec(),
                value,
            ),
            final(self).start_spec() == old(self).start_spec(),
            final(self).end_spec() == old(self).end_spec(),
            final(self).key_spec() == old(self).key_spec(),
            final(self).name_spec() == old(self).name_spec(),
            changed == (position_value(old(self).start_spec(), old(self).end_spec(), value)
                != old(self).value_spec()),
    {
        let span = self.end - self.start;
        proof {
            assert(value as int * span as int <= 255 * usize::MAX) by (nonlinear_arith)
                requires
                    span <= usize::MAX,
                    value <= 255,
            ;
        }
        let product = value as u128 * span as u128;
        proof {
            assert(product as int == value as int * span as int) by (nonlinear_arith)
                requires
                    span <= usize::MAX,
                    value <= 255,
                    product as int == value as int * span as int,
            ;
        }
        let step = product / 128;
        let step = if step > span as u128 {
            span
        } else {
            step as usize
        };
        let nv = self.start + step;
        if nv != self.value {
            self.value = nv;
            return true;
        }
        false
    }

    pub fn get_value(&self) -> (r: usize)
        ensures
            r == self.value_spec(),
    {
        self.value
    }

    pub fn get_keyboard_key(&self) -> (r: KeyBoardKey)
        ensures
            r == self.key_spec(),
    {
        self.key
    }

    pub fn name(&self) -> (r: &str)
        ensures
            r@ == self.name_spec(),
    {
        self.name.as_str()
    }
}

/// A wave type that a controller can switch.
#[derive(Debug, Clone, PartialEq)]
pub struct WaveTypeValue {
    /// The current value
    value: WaveType,
    /// The name of the value
    name: String,
    /// The keyboard key that is mapped to the value
    key: KeyBoardKey,
}

impl WaveTypeValue {
    pub closed spec fn value_spec(&self) -> WaveType {
        self.value
    }

    pub closed spec fn key_spec(&self) -> KeyBoardKey {
        self.key
    }

    pub closed spec fn name_spec(&self) -> Seq<char> {
        self.name@
    }

    pub fn new(name: &str, key: KeyBoardKey) -> (r: WaveTypeValue)
        ensures
            r.value_spec() == WaveType::Sin,
            r.key_spec() == key,
            r.name_spec() == name@,
    {
        WaveTypeValue { value: WaveType::Sin, name: name.to_owned(), key }
    }

    /// Any pressed position moves to the next wave type; true when it did.
    pub fn from_midi_value(&mut self, value: u8) -> (changed: bool)
        ensures
            changed == (value > 0),
            final(self).value_spec() == (if value > 0 {
                next_wave(old(self).value_spec())
            } else {
                old(self).value_spec()
            }),
            final(self).key_spec() == old(self).key_spec(),
            final(self).name_spec() == old(self).name_spec(),
    {
        if value > 0 {
            self.value = self.value.cycle();
            return true;
        }
        false
    }

    pub fn get_value(&self) -> (r: WaveType)
        ensures
            r == self.value_spec(),
    {
        self.value
    }

    pub fn get_keyboard_key(&self) -> (r: KeyBoardKey)
        ensures
            r == self.key_spec(),
    {
        self.key
    }

    pub fn name(&self) -> (r: &str)
        ensures
            r@ == self.name_spec(),
    {
        self.name.as_str()
    }
}

} // verus!
