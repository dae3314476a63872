use vstd::prelude::*;

verus! {

/// Number of LED rows the device drives.
pub const ROWS_SIZE: usize = 16;

/// Number of LED commons (columns) the device drives.
pub const COMMONS_SIZE: usize = 8;

/// Number of byte-sized display RAM slots on the chip.
pub const RAM_SIZE: usize = 16;

/// Command prefix selecting the system-setup (oscillator) register.
pub const OSCILLATOR_COMMAND: u8 = 0b0010_0000;

/// Command prefix selecting the display-setup register.
pub const DISPLAY_COMMAND: u8 = 0b1000_0000;

/// Command prefix selecting the dimming register.
pub const DIMMING_COMMAND: u8 = 0b1110_0000;

/// Command prefix for display RAM access: the raw RAM address itself.
pub const DATA_ADDRESS: u8 = 0b0000_0000;

/// Largest valid dimming level (16/16 PWM duty cycle).
pub const BRIGHTNESS_MAX_LEVEL: u8 = 15;

} // verus!
