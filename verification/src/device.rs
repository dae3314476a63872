//! Device state: the shadow copy of the chip's write-only registers and the
//! operations that keep chip and shadow in step.

use crate::constants::BRIGHTNESS_MAX_LEVEL;
use crate::constants::COMMONS_SIZE;
use crate::constants::DATA_ADDRESS;
use crate::constants::DIMMING_COMMAND;
use crate::constants::DISPLAY_COMMAND;
use crate::constants::OSCILLATOR_COMMAND;
use crate::constants::RAM_SIZE;
use crate::i2c_mock::lemma_sim_written_no_wrap;
use crate::i2c_mock::sim_response;
use crate::i2c_mock::sim_write_regs;
use crate::i2c_mock::sim_written;
use crate::transport::BusOp;
use crate::transport::Transport;
use crate::types::spec_chip_offset;
use crate::types::Dimming;
use crate::types::Display;
use crate::types::LedLocation;
use crate::types::Oscillator;
use vstd::prelude::*;

verus! {

/// The 16-bit register word with only bit `row` set.
pub open spec fn spec_row_mask(row: u8) -> u16 {
    1u16 << (row as u16)
}

/// `word` with bit `row` forced to `enabled`.
pub open spec fn spec_word_with(word: u16, row: u8, enabled: bool) -> u16 {
    if enabled {
        word | spec_row_mask(row)
    } else {
        word & !spec_row_mask(row)
    }
}

/// Whether bit `row` of `word` is set.
pub open spec fn spec_word_bit(word: u16, row: u8) -> bool {
    word & spec_row_mask(row) != 0
}

/// The low half of a register word: the byte at its even device offset.
pub open spec fn spec_low_byte(word: u16) -> u8 {
    (word & 0xFF) as u8
}

/// The high half of a register word: the byte at its odd device offset.
pub open spec fn spec_high_byte(word: u16) -> u8 {
    (word >> 8u16) as u8
}

/// The register word a little-endian (low, high) byte pair encodes.
pub open spec fn spec_word_from_bytes(low: u8, high: u8) -> u16 {
    (low as u16) | ((high as u16) << 8u16)
}

/// The half of a register word that carries `row`: the high byte for rows 8
/// and above, the low byte otherwise.
pub open spec fn spec_half_for_row(word: u16, row: u8) -> u8 {
    if row >= 8 {
        spec_high_byte(word)
    } else {
        spec_low_byte(word)
    }
}

/// The full-buffer write transaction payload: the base RAM address followed
/// by every register word, little-endian per word.
pub open spec fn spec_buffer_bytes(buffer: Seq<u16>) -> Seq<u8> {
    Seq::new(
        (2 * buffer.len() + 1) as nat,
        |i: int|
            if i == 0 {
                DATA_ADDRESS
            } else if (i - 1) % 2 == 0 {
                spec_low_byte(buffer[(i - 1) / 2])
            } else {
                spec_high_byte(buffer[(i - 1) / 2])
            },
    )
}

/// The shadow buffer that a sequence of device RAM bytes decodes to,
/// little-endian per two-byte register word.
pub open spec fn spec_decoded_buffer(data: Seq<u8>) -> Seq<u16> {
    Seq::new((data.len() / 2) as nat, |i: int| spec_word_from_bytes(data[2 * i], data[2 * i + 1]))
}

/// An all-zero shadow buffer, one word per common.
pub open spec fn spec_zero_buffer() -> Seq<u16> {
    Seq::new(COMMONS_SIZE as nat, |i: int| 0u16)
}

/// The driver state and configuration for one LED-matrix controller.
///
/// The driver owns the transport while it exists and keeps a shadow copy of
/// the chip's write-only registers: the oscillator, display and dimming
/// state, and the display RAM buffer, one 16-bit word per common in the
/// packed two-bytes-per-register convention. The shadow always holds the
/// last value this driver requested, which the physical chip need not yet
/// match; a failed bus write leaves the shadow updated (a deliberate,
/// documented divergence window, not rolled back).
pub struct HT16K33<I2C> {
    i2c: I2C,
    address: u8,
    buffer: Vec<u16>,
    oscillator_state: Oscillator,
    display_state: Display,
    dimming_state: Dimming,
}

impl<I2C: Transport> HT16K33<I2C> {
    /// The transport this driver owns.
    pub closed spec fn transport(&self) -> I2C {
        self.i2c
    }

    /// The device identifier bus transactions are addressed to.
    pub closed spec fn spec_address(&self) -> u8 {
        self.address
    }

    /// The shadow display buffer, one register word per common.
    pub closed spec fn spec_buffer(&self) -> Seq<u16> {
        self.buffer@
    }

    /// The shadow oscillator state.
    pub closed spec fn spec_oscillator(&self) -> Oscillator {
        self.oscillator_state
    }

    /// The shadow display state.
    pub closed spec fn spec_display(&self) -> Display {
        self.display_state
    }

    /// The shadow dimming state.
    pub closed spec fn spec_dimming(&self) -> Dimming {
        self.dimming_state
    }

    /// The transactions the owned transport has carried out.
    pub open spec fn spec_transactions(&self) -> Seq<BusOp> {
        self.transport().transactions()
    }

    /// Well-formedness: the transport is usable, the shadow buffer has one
    /// word per common, and the dimming level is in range.
    pub open spec fn wf(&self) -> bool {
        &&& self.transport().inv()
        &&& self.spec_buffer().len() == COMMONS_SIZE
        &&& self.spec_dimming().wf()
    }

    /// Create an HT16K33 driver that owns `i2c` and addresses the device
    /// `address`, with the shadow state at the chip's power-on defaults:
    /// oscillator off, display off, maximum brightness, all LEDs off.
    pub fn new(i2c: I2C, address: u8) -> (driver: Self)
        requires
            i2c.inv(),
        ensures
            driver.wf(),
            driver.transport() == i2c,
            driver.spec_address() == address,
            driver.spec_buffer() == spec_zero_buffer(),
            driver.spec_oscillator() == Oscillator::Off,
            driver.spec_display() == Display::Off,
            driver.spec_dimming().spec_level() == BRIGHTNESS_MAX_LEVEL,
    {
        let mut buffer: Vec<u16> = Vec::new();
        while buffer.len() < COMMONS_SIZE
            invariant
                buffer@.len() <= COMMONS_SIZE,
                forall|i: int| 0 <= i < buffer@.len() ==> buffer@[i] == 0u16,
            decreases COMMONS_SIZE - buffer@.len(),
        {
            buffer.push(0u16);
        }
        let driver = HT16K33 {
            i2c,
            address,
            buffer,
            oscillator_state: Oscillator::Off,
            display_state: Display::Off,
            dimming_state: Dimming::brightness_max(),
        };
        proof {
            assert(driver.spec_buffer() =~= spec_zero_buffer());
        }
        driver
    }

    /// Return the owned transport, making this driver unusable.
    pub fn destroy(self) -> (i2c: I2C)
        ensures
            i2c == self.transport(),
    {
        self.i2c
    }

    /// The current shadow display buffer.
    pub fn display_buffer(&self) -> (buffer: &Vec<u16>)
        ensures
            buffer@ == self.spec_buffer(),
    {
        &self.buffer
    }

    /// The current shadow oscillator state.
    pub fn oscillator(&self) -> (oscillator: &Oscillator)
        ensures
            *oscillator == self.spec_oscillator(),
    {
        &self.oscillator_state
    }

    /// The current shadow display state.
    pub fn display(&self) -> (display: &Display)
        ensures
            *display == self.spec_display(),
    {
        &self.display_state
    }

    /// The current shadow dimming state.
    pub fn dimming(&self) -> (dimming: &Dimming)
        ensures
            *dimming == self.spec_dimming(),
    {
        &self.dimming_state
    }

    /// Control the oscillator: update the shadow state, then emit the one
    /// system-setup command byte. The shadow is updated even when the bus
    /// write fails.
    pub fn set_oscillator(&mut self, oscillator: Oscillator) -> (result: Result<
        (),
        I2C::BusError,
    >)
        requires
            old(self).wf(),
        ensures
            final(self).wf(),
            final(self).spec_oscillator() == oscillator,
            final(self).spec_address() == old(self).spec_address(),
            final(self).spec_buffer() == old(self).spec_buffer(),
            final(self).spec_display() == old(self).spec_display(),
            final(self).spec_dimming() == old(self).spec_dimming(),
            result is Ok ==> final(self).spec_transactions() == old(self).spec_transactions().push(
                BusOp::Write {
                    address: old(self).spec_address(),
                    bytes: seq![OSCILLATOR_COMMAND | oscillator.encoding()],
                },
            ),
    {
        self.oscillator_state = oscillator;

        let command = OSCILLATOR_COMMAND | oscillator.encode();
        let mut bytes: Vec<u8> = Vec::new();
        bytes.push(command);
        proof {
            assert(bytes@ =~= seq![OSCILLATOR_COMMAND | oscillator.encoding()]);
        }
        match self.i2c.write(self.address, bytes.as_slice()) {
            Ok(()) => Ok(()),
            Err(e) => Err(e),
        }
    }

    /// Control the display: update the shadow state, then emit the one
    /// display-setup command byte. The shadow is updated even when the bus
    /// write fails.
    pub fn set_display(&mut self, display: Display) -> (result: Result<(), I2C::BusError>)
        requires
            old(self).wf(),
        ensures
            final(self).wf(),
            final(self).spec_display() == display,
            final(self).spec_address() == old(self).spec_address(),
            final(self).spec_buffer() == old(self).spec_buffer(),
            final(self).spec_oscillator() == old(self).spec_oscillator(),
            final(self).spec_dimming() == old(self).spec_dimming(),
            result is Ok ==> final(self).spec_transactions() == old(self).spec_transactions().push(
                BusOp::Write {
                    address: old(self).spec_address(),
                    bytes: seq![DISPLAY_COMMAND | display.encoding()],
                },
            ),
    {
        self.display_state = display;

        let command = DISPLAY_COMMAND | display.encode();
        let mut bytes: Vec<u8> = Vec::new();
        bytes.push(command);
        proof {
            assert(bytes@ =~= seq![DISPLAY_COMMAND | display.encoding()]);
        }
        match self.i2c.write(self.address, bytes.as_slice()) {
            Ok(()) => Ok(()),
            Err(e) => Err(e),
        }
    }

    /// Control the display dimming: update the shadow state, then emit the
    /// one dimming command byte. The level was validated when the `Dimming`
    /// was built; the shadow is updated even when the bus write fails.
    pub fn set_dimming(&mut self, dimming: Dimming) -> (result: Result<(), I2C::BusError>)
        requires
            old(self).wf(),
            dimming.wf(),
        ensures
            final(self).wf(),
            final(self).spec_dimming() == dimming,
            final(self).spec_address() == old(self).spec_address(),
            final(self).spec_buffer() == old(self).spec_buffer(),
            final(self).spec_oscillator() == old(self).spec_oscillator(),
            final(self).spec_display() == old(self).spec_display(),
            result is Ok ==> final(self).spec_transactions() == old(self).spec_transactions().push(
                BusOp::Write {
                    address: old(self).spec_address(),
                    bytes: seq![DIMMING_COMMAND | dimming.encoding()],
                },
            ),
    {
        self.dimming_state = dimming;

        let command = DIMMING_COMMAND | dimming.level();
        let mut bytes: Vec<u8> = Vec::new();
        bytes.push(command);
        proof {
            assert(bytes@ =~= seq![DIMMING_COMMAND | dimming.encoding()]);
        }
        match self.i2c.write(self.address, bytes.as_slice()) {
            Ok(()) => Ok(()),
            Err(e) => Err(e),
        }
    }

    /// Enable or disable one LED in the shadow buffer only; no bus
    /// transaction is emitted. The change reaches the chip with the next
    /// [`Self::write_display_buffer`] (or [`Self::set_led`]) call. Always
    /// succeeds.
    pub fn update_display_buffer(&mut self, location: LedLocation, enabled: bool)
        requires
            old(self).wf(),
            location.wf(),
        ensures
            final(self).wf(),
            final(self).spec_buffer() == old(self).spec_buffer().update(
                location.spec_common() as int,
                spec_word_with(
                    old(self).spec_buffer()[location.spec_common() as int],
                    location.spec_row(),
                    enabled,
                ),
            ),
            final(self).transport() == old(self).transport(),
            final(self).spec_address() == old(self).spec_address(),
            final(self).spec_oscillator() == old(self).spec_oscillator(),
            final(self).spec_display() == old(self).spec_display(),
            final(self).spec_dimming() == old(self).spec_dimming(),
    {
        let index = location.common_as_index();
        let mask = location.row();
        let word = self.buffer[index];
        let updated = if enabled {
            word | mask
        } else {
            word & !mask
        };
        self.buffer[index] = updated;
    }

    /// Reset every word of the shadow buffer to zero; no bus transaction is
    /// emitted. The change reaches the chip with the next
    /// [`Self::write_display_buffer`] call. Always succeeds.
    pub fn clear_display_buffer(&mut self)
        requires
            old(self).wf(),
        ensures
            final(self).wf(),
            final(self).spec_buffer() == spec_zero_buffer(),
            final(self).transport() == old(self).transport(),
            final(self).spec_address() == old(self).spec_address(),
            final(self).spec_oscillator() == old(self).spec_oscillator(),
            final(self).spec_display() == old(self).spec_display(),
            final(self).spec_dimming() == old(self).spec_dimming(),
    {
        let mut index: usize = 0;
        while index < self.buffer.len()
            invariant
                old(self).wf(),
                index <= self.buffer@.len(),
                self.buffer@.len() == COMMONS_SIZE,
                self.i2c == old(self).i2c,
                self.address == old(self).address,
                self.oscillator_state == old(self).oscillator_state,
                self.display_state == old(self).display_state,
                self.dimming_state == old(self).dimming_state,
                forall|i: int| 0 <= i < index ==> self.buffer@[i] == 0u16,
            decreases self.buffer@.len() - index,
        {
            self.buffer[index] = 0;
            index += 1;
        }
        proof {
            assert(self.spec_buffer() =~= spec_zero_buffer());
        }
    }

    /// Enable or disable one LED: update the shadow buffer, then write only
    /// the one affected register byte to the device at its resolved RAM
    /// offset. The shadow is updated even when the bus write fails.
    pub fn set_led(&mut self, location: LedLocation, enabled: bool) -> (result: Result<
        (),
        I2C::BusError,
    >)
        requires
            old(self).wf(),
            location.wf(),
        ensures
            final(self).wf(),
            final(self).spec_buffer() == old(self).spec_buffer().update(
                location.spec_common() as int,
                spec_word_with(
                    old(self).spec_buffer()[location.spec_common() as int],
                    location.spec_row(),
                    enabled,
                ),
            ),
            final(self).spec_address() == old(self).spec_address(),
            final(self).spec_oscillator() == old(self).spec_oscillator(),
            final(self).spec_display() == old(self).spec_display(),
            final(self).spec_dimming() == old(self).spec_dimming(),
            result is Ok ==> final(self).spec_transactions() == old(self).spec_transactions().push(
                BusOp::Write {
                    address: old(self).spec_address(),
                    bytes: seq![
                        spec_chip_offset(location.spec_row(), location.spec_common()),
                        spec_half_for_row(
                            spec_word_with(
                                old(self).spec_buffer()[location.spec_common() as int],
                                location.spec_row(),
                                enabled,
                            ),
                            location.spec_row(),
                        ),
                    ],
                },
            ),
    {
        self.update_display_buffer(location, enabled);

        let buf_addr = location.common_as_index();
        let chip_addr = location.common_as_index_on_chip();

        let word = self.buffer[buf_addr];
        let new_mask = if chip_addr % 2 != 0 {
            (word >> 8u16) as u8
        } else {
            (word & 0xFF) as u8
        };

        let mut bytes: Vec<u8> = Vec::new();
        bytes.push(chip_addr);
        bytes.push(new_mask);
        proof {
            assert(bytes@ =~= seq![chip_addr, new_mask]);
        }
        match self.i2c.write(self.address, bytes.as_slice()) {
            Ok(()) => Ok(()),
            Err(e) => Err(e),
        }
    }

    /// Write the whole shadow buffer to the chip as one transaction: the
    /// base RAM address followed by every register word, little-endian per
    /// word.
    pub fn write_display_buffer(&mut self) -> (result: Result<(), I2C::BusError>)
        requires
            old(self).wf(),
        ensures
            final(self).wf(),
            final(self).spec_buffer() == old(self).spec_buffer(),
            final(self).spec_address() == old(self).spec_address(),
            final(self).spec_oscillator() == old(self).spec_oscillator(),
            final(self).spec_display() == old(self).spec_display(),
            final(self).spec_dimming() == old(self).spec_dimming(),
            result is Ok ==> final(self).spec_transactions() == old(self).spec_transactions().push(
                BusOp::Write {
                    address: old(self).spec_address(),
                    bytes: spec_buffer_bytes(old(self).spec_buffer()),
                },
            ),
    {
        let mut write_buffer: Vec<u8> = Vec::new();
        write_buffer.push(DATA_ADDRESS);
        let mut index: usize = 0;
        while index < self.buffer.len()
            invariant
                old(self).wf(),
                index <= self.buffer@.len(),
                self.buffer@.len() == COMMONS_SIZE,
                write_buffer@.len() == 1 + 2 * index,
                write_buffer@[0] == DATA_ADDRESS,
                forall|i: int|
                    1 <= i < write_buffer@.len() ==> write_buffer@[i] == (if (i - 1) % 2 == 0 {
                        spec_low_byte(self.buffer@[(i - 1) / 2])
                    } else {
                        spec_high_byte(self.buffer@[(i - 1) / 2])
                    }),
            decreases self.buffer@.len() - index,
        {
            let word = self.buffer[index];
            write_buffer.push((word & 0xFF) as u8);
            write_buffer.push((word >> 8u16) as u8);
            index += 1;
        }
        proof {
            assert(write_buffer@ =~= spec_buffer_bytes(self.buffer@));
        }
        match self.i2c.write(self.address, write_buffer.as_slice()) {
            Ok(()) => Ok(()),
            Err(e) => Err(e),
        }
    }

    /// Read the chip's display RAM as one combined transaction (write the
    /// base RAM address, read the full RAM length) and overwrite every
    /// shadow buffer word with the decoded result, little-endian per word.
    ///
    /// This is the only operation that can desynchronize the shadow from
    /// locally pending unsent updates: interleave it with
    /// [`Self::update_display_buffer`] only across an intervening
    /// [`Self::write_display_buffer`] if the shadow writes must survive.
    pub fn read_display_buffer(&mut self) -> (result: Result<(), I2C::BusError>)
        requires
            old(self).wf(),
        ensures
            final(self).wf(),
            final(self).spec_address() == old(self).spec_address(),
            final(self).spec_oscillator() == old(self).spec_oscillator(),
            final(self).spec_display() == old(self).spec_display(),
            final(self).spec_dimming() == old(self).spec_dimming(),
            result is Err ==> final(self).spec_buffer() == old(self).spec_buffer(),
            result is Ok ==> (final(self).spec_transactions().last() matches BusOp::WriteRead {
                address,
                bytes,
                response,
            } && address == old(self).spec_address() && bytes == seq![DATA_ADDRESS]
                && response.len() == RAM_SIZE && final(self).spec_buffer() == spec_decoded_buffer(
                response,
            ) && final(self).spec_transactions() == old(self).spec_transactions().push(
                final(self).spec_transactions().last(),
            )),
    {
        let mut command: Vec<u8> = Vec::new();
        command.push(DATA_ADDRESS);
        proof {
            assert(command@ =~= seq![DATA_ADDRESS]);
        }
        match self.i2c.write_read(self.address, command.as_slice(), RAM_SIZE) {
            Err(e) => Err(e),
            Ok(data) => {
                let ghost i2c_snapshot = self.i2c;
                let mut index: usize = 0;
                while index < COMMONS_SIZE
                    invariant
                        old(self).wf(),
                        index <= COMMONS_SIZE,
                        data@.len() == RAM_SIZE,
                        self.buffer@.len() == COMMONS_SIZE,
                        self.i2c == i2c_snapshot,
                        self.address == old(self).address,
                        self.oscillator_state == old(self).oscillator_state,
                        self.display_state == old(self).display_state,
                        self.dimming_state == old(self).dimming_state,
                        forall|j: int|
                            0 <= j < index ==> self.buffer@[j] == spec_word_from_bytes(
                                data@[2 * j],
                                data@[2 * j + 1],
                            ),
                    decreases COMMONS_SIZE - index,
                {
                    let low = data[2 * index];
                    let high = data[2 * index + 1];
                    let word = (low as u16) | ((high as u16) << 8u16);
                    self.buffer[index] = word;
                    index += 1;
                }
                proof {
                    assert(self.spec_buffer() =~= spec_decoded_buffer(data@));
                }
                Ok(())
            },
        }
    }

    /// Initialize the device: enable the oscillator, set the display off
    /// with blinking off, set dimming to maximum, then clear the shadow
    /// buffer and write it out — in this exact order, aborting at the first
    /// transport error. On success exactly four writes have been emitted,
    /// byte-exact.
    pub fn initialize(&mut self) -> (result: Result<(), I2C::BusError>)
        requires
            old(self).wf(),
        ensures
            final(self).wf(),
            final(self).spec_address() == old(self).spec_address(),
            final(self).spec_oscillator() == Oscillator::On,
            result is Ok ==> final(self).spec_display() == Display::Off
                && final(self).spec_dimming().spec_level() == BRIGHTNESS_MAX_LEVEL
                && final(self).spec_buffer() == spec_zero_buffer()
                && final(self).spec_transactions() == old(self).spec_transactions().push(
                BusOp::Write {
                    address: old(self).spec_address(),
                    bytes: seq![OSCILLATOR_COMMAND | Oscillator::On.encoding()],
                },
            ).push(
                BusOp::Write {
                    address: old(self).spec_address(),
                    bytes: seq![DISPLAY_COMMAND | Display::Off.encoding()],
                },
            ).push(
                BusOp::Write {
                    address: old(self).spec_address(),
                    bytes: seq![DIMMING_COMMAND | BRIGHTNESS_MAX_LEVEL],
                },
            ).push(
                BusOp::Write {
                    address: old(self).spec_address(),
                    bytes: spec_buffer_bytes(spec_zero_buffer()),
                },
            ),
    {
        self.set_oscillator(Oscillator::On)?;

        self.set_display(Display::Off)?;
        self.set_dimming(Dimming::brightness_max())?;

        self.clear_display_buffer();
        self.write_display_buffer()?;

        Ok(())
    }
}

/// Design-time check: no command prefix overlaps the payload bits of any
/// state it can carry, so every command byte splits unambiguously into its
/// prefix and its state bits.
pub proof fn lemma_command_prefixes_disjoint()
    ensures
        forall|oscillator: Oscillator| OSCILLATOR_COMMAND & #[trigger] oscillator.encoding() == 0,
        forall|display: Display| DISPLAY_COMMAND & #[trigger] display.encoding() == 0,
        forall|dimming: Dimming|
            dimming.wf() ==> DIMMING_COMMAND & #[trigger] dimming.encoding() == 0,
{
    assert(0b0010_0000u8 & 0b0000_0000u8 == 0) by (bit_vector);
    assert(0b0010_0000u8 & 0b0000_0001u8 == 0) by (bit_vector);
    assert(0b1000_0000u8 & 0b0000_0000u8 == 0) by (bit_vector);
    assert(0b1000_0000u8 & 0b0000_0001u8 == 0) by (bit_vector);
    assert(0b1000_0000u8 & 0b0000_0111u8 == 0) by (bit_vector);
    assert(0b1000_0000u8 & 0b0000_0101u8 == 0) by (bit_vector);
    assert(0b1000_0000u8 & 0b0000_0011u8 == 0) by (bit_vector);
    assert(forall|level: u8| level <= 15 ==> 0b1110_0000u8 & level == 0) by (bit_vector);
}

/// Law: enabling an LED that is off and then disabling it again restores
/// the shadow buffer to its prior state.
///
/// The two updates are exactly what consecutive
/// [`HT16K33::set_led`]`(location, true)` then `(location, false)` calls do
/// to the shadow buffer. An LED that is already on is left on by the first
/// call, so the pair of calls clears it instead of restoring the buffer;
/// such coordinates are excluded here.
pub proof fn lemma_set_led_toggle(buffer: Seq<u16>, location: LedLocation)
    requires
        buffer.len() == COMMONS_SIZE,
        location.wf(),
        !spec_word_bit(buffer[location.spec_common() as int], location.spec_row()),
    ensures
        ({
            let enabled = buffer.update(
                location.spec_common() as int,
                spec_word_with(buffer[location.spec_common() as int], location.spec_row(), true),
            );
            enabled.update(
                location.spec_common() as int,
                spec_word_with(
                    enabled[location.spec_common() as int],
                    location.spec_row(),
                    false,
                ),
            )
        }) == buffer,
{
    let c = location.spec_common() as int;
    let w = buffer[c];
    let r = location.spec_row() as u16;
    assert(w & (1u16 << r) == 0 ==> ((w | (1u16 << r)) & !(1u16 << r)) == w) by (bit_vector);
    let enabled = buffer.update(c, spec_word_with(buffer[c], location.spec_row(), true));
    assert(enabled.update(c, spec_word_with(enabled[c], location.spec_row(), false)) =~= buffer);
}

/// Law: writing the full shadow buffer to the bus simulator and then
/// reading the full RAM back through it decodes to exactly the buffer that
/// was written, whatever the simulator's registers held before.
///
/// The write bytes are those [`HT16K33::write_display_buffer`] emits, and
/// the read is the combined transaction [`HT16K33::read_display_buffer`]
/// issues (its address byte sets the register pointer back to the base RAM
/// address), so decoding reads every byte in the same order the write laid
/// it down.
pub proof fn lemma_buffer_round_trip(buffer: Seq<u16>, regs: Seq<u8>)
    requires
        buffer.len() == COMMONS_SIZE,
        regs.len() == RAM_SIZE,
    ensures
        spec_decoded_buffer(
            sim_response(
                sim_write_regs(regs, spec_buffer_bytes(buffer)),
                DATA_ADDRESS as nat,
                RAM_SIZE as nat,
            ),
        ) == buffer,
{
    let bytes = spec_buffer_bytes(buffer);
    let payload = bytes.skip(1);
    lemma_sim_written_no_wrap(regs, 0, payload);
    let written = sim_write_regs(regs, bytes);
    assert(written == sim_written(regs, bytes[0] as nat, payload));
    let response = sim_response(written, DATA_ADDRESS as nat, RAM_SIZE as nat);
    assert forall|i: int| 0 <= i < COMMONS_SIZE implies response[2 * i] == spec_low_byte(
        buffer[i],
    ) && response[2 * i + 1] == spec_high_byte(buffer[i]) by {
        assert(written[2 * i] == payload[2 * i]);
        assert(written[2 * i + 1] == payload[2 * i + 1]);
        assert(payload[2 * i] == bytes[2 * i + 1]);
        assert(payload[2 * i + 1] == bytes[2 * i + 2]);
    }
    assert forall|i: int| 0 <= i < COMMONS_SIZE implies spec_decoded_buffer(response)[i]
        == buffer[i] by {
        let w = buffer[i];
        assert(((w & 0xFF) as u8 as u16) | (((w >> 8u16) as u8 as u16) << 8u16) == w)
            by (bit_vector);
    }
    assert(spec_decoded_buffer(response) =~= buffer);
}

} // verus!
