use ht16k33::i2c_mock::I2cMock;
use ht16k33::BusTransaction;
use ht16k33::Dimming;
use ht16k33::Display;
use ht16k33::LedLocation;
use ht16k33::Oscillator;
use ht16k33::COMMONS_SIZE;
use ht16k33::HT16K33;

const ADDRESS: u8 = 0;

fn full_buffer_write(bytes: [u16; 8]) -> BusTransaction {
    let mut expected = vec![0u8];
    for word in bytes {
        expected.extend_from_slice(&word.to_le_bytes());
    }
    BusTransaction::Write {
        address: ADDRESS,
        bytes: expected,
    }
}

#[test]
fn lib_new() {
    let i2c = I2cMock::new();
    let ht16k33 = HT16K33::new(i2c, ADDRESS);

    let i2c = ht16k33.destroy();
    assert!(i2c.log().is_empty());
}

#[test]
fn initialize() {
    let i2c = I2cMock::new();
    let mut ht16k33 = HT16K33::new(i2c, ADDRESS);

    ht16k33.initialize().unwrap();

    let i2c = ht16k33.destroy();
    let expected = vec![
        BusTransaction::Write {
            address: ADDRESS,
            bytes: vec![0b0010_0001],
        },
        BusTransaction::Write {
            address: ADDRESS,
            bytes: vec![0b1000_0000],
        },
        BusTransaction::Write {
            address: ADDRESS,
            bytes: vec![0b1110_1111],
        },
        full_buffer_write([0; 8]),
    ];
    assert_eq!(*i2c.log(), expected);
}

#[test]
fn display_buffer() {
    let i2c = I2cMock::new();
    let ht16k33 = HT16K33::new(i2c, ADDRESS);

    let buffer = ht16k33.display_buffer();

    // Ensure it's the expected size: one register word per common.
    assert_eq!(buffer.len(), COMMONS_SIZE);

    for word in buffer.iter() {
        // And because we just initialized this buffer, it should be all zeros.
        assert_eq!(*word, 0u16);
    }
}

#[test]
fn oscillator() {
    let i2c = I2cMock::new();
    let ht16k33 = HT16K33::new(i2c, ADDRESS);

    let &oscillator = ht16k33.oscillator();

    assert_eq!(oscillator, Oscillator::Off);
}

#[test]
fn display() {
    let i2c = I2cMock::new();
    let ht16k33 = HT16K33::new(i2c, ADDRESS);

    let &display = ht16k33.display();

    assert_eq!(display, Display::Off);
}

#[test]
fn dimming() {
    let i2c = I2cMock::new();
    let ht16k33 = HT16K33::new(i2c, ADDRESS);

    let &dimming = ht16k33.dimming();

    assert_eq!(dimming, Dimming::brightness_max());
}

#[test]
fn update_display_buffer() {
    let i2c = I2cMock::new();
    let mut ht16k33 = HT16K33::new(i2c, ADDRESS);

    let first_led = LedLocation::new(1, 4).unwrap();
    let second_led = LedLocation::new(1, 5).unwrap();

    // Turn on the LED.
    ht16k33.update_display_buffer(first_led, true);
    assert_eq!(ht16k33.display_buffer()[4], 0b0000_0010);

    // Turn on another LED.
    ht16k33.update_display_buffer(second_led, true);
    assert_eq!(ht16k33.display_buffer()[4], 0b0000_0010);
    assert_eq!(ht16k33.display_buffer()[5], 0b0000_0010);

    // Turn off the first LED.
    ht16k33.update_display_buffer(first_led, false);
    assert_eq!(ht16k33.display_buffer()[4], 0);
    assert_eq!(ht16k33.display_buffer()[5], 0b0000_0010);

    // No bus traffic for local-only updates.
    let i2c = ht16k33.destroy();
    assert!(i2c.log().is_empty());
}

#[test]
fn clear_display_buffer() {
    let i2c = I2cMock::new();
    let mut ht16k33 = HT16K33::new(i2c, ADDRESS);

    let first_led = LedLocation::new(1, 4).unwrap();
    let second_led = LedLocation::new(1, 5).unwrap();

    // Turn on the LEDs.
    ht16k33.update_display_buffer(first_led, true);
    ht16k33.update_display_buffer(second_led, true);

    // Clear the display buffer.
    ht16k33.clear_display_buffer();

    let buffer = ht16k33.display_buffer();

    // Ensure it's still the expected size.
    assert_eq!(buffer.len(), COMMONS_SIZE);

    for word in buffer.iter() {
        // We just cleared this buffer, it should be all zeros.
        assert_eq!(*word, 0u16);
    }
}

#[test]
fn set_oscillator() {
    let i2c = I2cMock::new();
    let mut ht16k33 = HT16K33::new(i2c, ADDRESS);

    ht16k33.set_oscillator(Oscillator::Off).unwrap();

    let i2c = ht16k33.destroy();
    let expected = vec![BusTransaction::Write {
        address: ADDRESS,
        bytes: vec![0b0010_0000],
    }];
    assert_eq!(*i2c.log(), expected);
}

#[test]
fn set_display() {
    let i2c = I2cMock::new();
    let mut ht16k33 = HT16K33::new(i2c, ADDRESS);

    ht16k33.set_display(Display::Off).unwrap();

    let i2c = ht16k33.destroy();
    let expected = vec![BusTransaction::Write {
        address: ADDRESS,
        bytes: vec![0b1000_0000],
    }];
    assert_eq!(*i2c.log(), expected);
}

#[test]
fn set_dimming() {
    let i2c = I2cMock::new();
    let mut ht16k33 = HT16K33::new(i2c, ADDRESS);

    ht16k33.set_dimming(Dimming::brightness_max()).unwrap();

    let i2c = ht16k33.destroy();
    let expected = vec![BusTransaction::Write {
        address: ADDRESS,
        bytes: vec![0b1110_1111],
    }];
    assert_eq!(*i2c.log(), expected);
}

#[test]
fn set_led() {
    let i2c = I2cMock::new();
    let mut ht16k33 = HT16K33::new(i2c, ADDRESS);

    ht16k33
        .set_led(LedLocation::new(1, 7).unwrap(), true)
        .unwrap();

    // Row 1 of common 7: word 7 gains bit 1, and its low byte goes out at
    // the even device offset 14.
    assert_eq!(ht16k33.display_buffer()[7], 0b0000_0010);

    let i2c = ht16k33.destroy();
    let expected = vec![BusTransaction::Write {
        address: ADDRESS,
        bytes: vec![14u8, 0b0000_0010],
    }];
    assert_eq!(*i2c.log(), expected);
}

#[test]
fn set_led_high_row_writes_odd_offset() {
    let i2c = I2cMock::new();
    let mut ht16k33 = HT16K33::new(i2c, ADDRESS);

    ht16k33
        .set_led(LedLocation::new(9, 3).unwrap(), true)
        .unwrap();

    // Row 9 of common 3: word 3 gains bit 9, and its high byte goes out at
    // the odd device offset 7.
    assert_eq!(ht16k33.display_buffer()[3], 0b0000_0010_0000_0000);

    let i2c = ht16k33.destroy();
    let expected = vec![BusTransaction::Write {
        address: ADDRESS,
        bytes: vec![7u8, 0b0000_0010],
    }];
    assert_eq!(*i2c.log(), expected);
}

#[test]
fn set_led_toggle_restores_buffer() {
    let i2c = I2cMock::new();
    let mut ht16k33 = HT16K33::new(i2c, ADDRESS);

    let location = LedLocation::new(3, 2).unwrap();
    let before = ht16k33.display_buffer().clone();

    ht16k33.set_led(location, true).unwrap();
    assert_ne!(*ht16k33.display_buffer(), before);
    ht16k33.set_led(location, false).unwrap();

    assert_eq!(*ht16k33.display_buffer(), before);
}

#[test]
fn write_display_buffer() {
    let i2c = I2cMock::new();
    let mut ht16k33 = HT16K33::new(i2c, ADDRESS);

    ht16k33.write_display_buffer().unwrap();

    let i2c = ht16k33.destroy();
    let expected = vec![full_buffer_write([0; 8])];
    assert_eq!(*i2c.log(), expected);
}

#[test]
fn write_display_buffer_is_little_endian_per_word() {
    let i2c = I2cMock::new();
    let mut ht16k33 = HT16K33::new(i2c, ADDRESS);

    ht16k33
        .update_display_buffer(LedLocation::new(1, 0).unwrap(), true);
    ht16k33
        .update_display_buffer(LedLocation::new(9, 1).unwrap(), true);
    ht16k33.write_display_buffer().unwrap();

    let i2c = ht16k33.destroy();
    let expected = vec![full_buffer_write([
        0b0000_0010,
        0b0000_0010_0000_0000,
        0,
        0,
        0,
        0,
        0,
        0,
    ])];
    assert_eq!(*i2c.log(), expected);
}

#[test]
fn read_display_buffer() {
    let mut i2c = I2cMock::new();
    i2c.set_data_value(1, 0b0000_0010);
    i2c.set_data_value(15, 0b0000_0010);

    let mut ht16k33 = HT16K33::new(i2c, ADDRESS);

    ht16k33.read_display_buffer().unwrap();

    let buffer = ht16k33.display_buffer();

    // Byte 1 is the high half of word 0; byte 15 the high half of word 7.
    for value in 0..buffer.len() {
        match value {
            0 | 7 => assert_eq!(buffer[value], 0b0000_0010_0000_0000),
            _ => assert_eq!(buffer[value], 0),
        }
    }

    let i2c = ht16k33.destroy();
    let expected = vec![BusTransaction::WriteRead {
        address: ADDRESS,
        bytes: vec![0u8],
        response: {
            let mut response = vec![0u8; 16];
            response[1] = 0b0000_0010;
            response[15] = 0b0000_0010;
            response
        },
    }];
    assert_eq!(*i2c.log(), expected);
}

#[test]
fn write_then_read_restores_buffer_through_simulator() {
    let i2c = I2cMock::new();
    let mut ht16k33 = HT16K33::new(i2c, ADDRESS);

    ht16k33
        .update_display_buffer(LedLocation::new(0, 0).unwrap(), true);
    ht16k33
        .update_display_buffer(LedLocation::new(9, 3).unwrap(), true);
    ht16k33
        .update_display_buffer(LedLocation::new(15, 7).unwrap(), true);
    let before = ht16k33.display_buffer().clone();

    ht16k33.write_display_buffer().unwrap();
    ht16k33.read_display_buffer().unwrap();

    assert_eq!(*ht16k33.display_buffer(), before);
}

#[test]
fn shadow_updated_before_bus_write() {
    let i2c = I2cMock::new();
    let mut ht16k33 = HT16K33::new(i2c, ADDRESS);

    ht16k33.set_oscillator(Oscillator::On).unwrap();
    assert_eq!(*ht16k33.oscillator(), Oscillator::On);

    ht16k33.set_display(Display::HalfHz).unwrap();
    assert_eq!(*ht16k33.display(), Display::HalfHz);

    ht16k33.set_dimming(Dimming::from_u8(4).unwrap()).unwrap();
    assert_eq!(ht16k33.dimming().level(), 4);

    let i2c = ht16k33.destroy();
    let expected = vec![
        BusTransaction::Write {
            address: ADDRESS,
            bytes: vec![0b0010_0001],
        },
        BusTransaction::Write {
            address: ADDRESS,
            bytes: vec![0b1000_0111],
        },
        BusTransaction::Write {
            address: ADDRESS,
            bytes: vec![0b1110_0100],
        },
    ];
    assert_eq!(*i2c.log(), expected);
}
