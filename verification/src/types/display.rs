use vstd::prelude::*;

verus! {

/// The LED display state: the payload of the display-setup register.
///
/// The LEDs can be all off (the default), all on, or all blinking at
/// 0.5 Hz, 1 Hz, or 2 Hz. Bit 0 of the payload turns the display on;
/// bits 1-2 select the blink rate (00 = off, 11 = 0.5 Hz, 10 = 1 Hz,
/// 01 = 2 Hz).
#[derive(Clone, Copy, Debug, PartialEq, Eq, Structural)]
pub enum Display {
    /// Display off.
    ///
    /// This is the power-on reset default.
    Off,
    /// Display on; blinking off.
    On,
    /// Display on; blinking at 0.5 Hz.
    HalfHz,
    /// Display on; blinking at 1 Hz.
    OneHz,
    /// Display on; blinking at 2 Hz.
    TwoHz,
}

impl Display {
    /// The payload bits this state contributes to the display-setup command byte.
    pub open spec fn encoding(self) -> u8 {
        match self {
            Display::Off => 0b0000_0000,
            Display::On => 0b0000_0001,
            Display::HalfHz => 0b0000_0111,
            Display::OneHz => 0b0000_0101,
            Display::TwoHz => 0b0000_0011,
        }
    }

    /// Encode this state as its command payload bits.
    pub fn encode(self) -> (bits: u8)
        ensures
            bits == self.encoding(),
    {
        match self {
            Display::Off => 0b0000_0000,
            Display::On => 0b0000_0001,
            Display::HalfHz => 0b0000_0111,
            Display::OneHz => 0b0000_0101,
            Display::TwoHz => 0b0000_0011,
        }
    }
}

impl Default for Display {
    /// The power-on reset default: display off.
    fn default() -> (state: Self)
        ensures
            state == Display::Off,
    {
        Display::Off
    }
}

} // verus!
