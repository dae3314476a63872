use vstd::prelude::*;

verus! {

/// System oscillator state: the payload of the system-setup register.
#[derive(Clone, Copy, Debug, PartialEq, Eq, Structural)]
pub enum Oscillator {
    /// Standby mode.
    ///
    /// This is the power-on reset default.
    Off,
    /// Normal operation mode.
    On,
}

impl Oscillator {
    /// The payload bits this state contributes to the system-setup command byte.
    pub open spec fn encoding(self) -> u8 {
        match self {
            Oscillator::Off => 0b0000_0000,
            Oscillator::On => 0b0000_0001,
        }
    }

    /// Encode this state as its command payload bits.
    pub fn encode(self) -> (bits: u8)
        ensures
            bits == self.encoding(),
    {
        match self {
            Oscillator::Off => 0b0000_0000,
            Oscillator::On => 0b0000_0001,
        }
    }
}

impl Default for Oscillator {
    /// The power-on reset default: oscillator off.
    fn default() -> (state: Self)
        ensures
            state == Oscillator::Off,
    {
        Oscillator::Off
    }
}

} // verus!
