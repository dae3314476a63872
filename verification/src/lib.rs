//! Driver core for a register-mapped 16x8 LED-matrix controller reached over
//! a two-wire serial bus.
//!
//! The crate is split into three layers:
//!
//! - a coordinate codec that maps a validated LED coordinate to the chip's
//!   register address and bit selector (and back),
//! - the device state: a shadow copy of the chip's write-only registers
//!   together with the operations that keep chip and shadow in step,
//! - a bus simulator that reproduces the chip's auto-increment/wraparound
//!   register pointer, so the device state can be exercised without hardware.

mod constants;
mod device;
mod errors;
mod transport;
mod types;

pub mod i2c_mock;

pub use constants::BRIGHTNESS_MAX_LEVEL;
pub use constants::COMMONS_SIZE;
pub use constants::DATA_ADDRESS;
pub use constants::DIMMING_COMMAND;
pub use constants::DISPLAY_COMMAND;
pub use constants::OSCILLATOR_COMMAND;
pub use constants::RAM_SIZE;
pub use constants::ROWS_SIZE;
pub use device::lemma_buffer_round_trip;
pub use device::lemma_command_prefixes_disjoint;
pub use device::lemma_set_led_toggle;
pub use device::spec_buffer_bytes;
pub use device::spec_decoded_buffer;
pub use device::spec_half_for_row;
pub use device::spec_high_byte;
pub use device::spec_low_byte;
pub use device::spec_row_mask;
pub use device::spec_word_bit;
pub use device::spec_word_from_bytes;
pub use device::spec_word_with;
pub use device::spec_zero_buffer;
pub use device::HT16K33;
pub use errors::ValidationError;
pub use transport::BusOp;
pub use transport::BusTransaction;
pub use transport::Transport;
pub use types::lemma_locate_resolve_roundtrip;
pub use types::lemma_resolve_locate_roundtrip;
pub use types::spec_chip_offset;
pub use types::spec_locate;
pub use types::spec_resolve;
pub use types::Dimming;
pub use types::Display;
pub use types::Layout;
pub use types::LedLocation;
pub use types::Oscillator;
