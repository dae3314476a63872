use ht16k33::Dimming;
use ht16k33::Display;
use ht16k33::Layout;
use ht16k33::LedLocation;
use ht16k33::Oscillator;
use ht16k33::ValidationError;
use ht16k33::BRIGHTNESS_MAX_LEVEL;
use ht16k33::COMMONS_SIZE;
use ht16k33::ROWS_SIZE;

#[test]
fn brightness_min() {
    assert!(
        Dimming::from_u8(0).unwrap() == Dimming::brightness_min(),
        "Dimming MIN brightness matches 1/16 value"
    );
}

#[test]
fn brightness_max() {
    assert!(
        Dimming::from_u8(15).unwrap() == Dimming::brightness_max(),
        "Dimming MAX brightness matches 16/16 value"
    );
}

#[test]
fn dimming_default() {
    assert!(
        Dimming::brightness_max() == Dimming::default(),
        "Dimming default is MAX brightness"
    );
}

#[test]
fn from_u8() {
    for value in 0u8..16 {
        let dimming = Dimming::from_u8(value).unwrap();
        assert_eq!(value, dimming.level());
    }
}

#[test]
#[should_panic]
fn from_u8_too_large() {
    let _ = Dimming::from_u8(16u8).unwrap();
}

#[test]
fn dimming_rejected_with_inclusive_limit() {
    let error = Dimming::from_u8(16u8).unwrap_err();
    let ValidationError::ValueTooLarge {
        name,
        value,
        limit,
        inclusive,
    } = error;
    assert_eq!(name, "Dimming");
    assert_eq!(value, 16);
    assert_eq!(limit, 15);
    assert_eq!(limit, BRIGHTNESS_MAX_LEVEL);
    assert!(inclusive);
}

#[test]
fn display_default() {
    assert!(Display::Off == Display::default(), "Display default is OFF");
}

#[test]
fn blink_includes_on() {
    let on = Display::On.encode();
    assert!(Display::HalfHz.encode() & on == on, "HALF_HZ includes ON");
    assert!(Display::OneHz.encode() & on == on, "ONE_HZ includes ON");
    assert!(Display::TwoHz.encode() & on == on, "TWO_HZ includes ON");
}

#[test]
fn display_encodings_are_exact() {
    assert_eq!(Display::Off.encode(), 0b0000_0000);
    assert_eq!(Display::On.encode(), 0b0000_0001);
    assert_eq!(Display::HalfHz.encode(), 0b0000_0111);
    assert_eq!(Display::OneHz.encode(), 0b0000_0101);
    assert_eq!(Display::TwoHz.encode(), 0b0000_0011);
}

#[test]
fn oscillator_default() {
    assert!(
        Oscillator::Off == Oscillator::default(),
        "Oscillator default is OFF"
    );
}

#[test]
fn led_location_default() {
    let location = LedLocation::default();

    assert!(
        location.common() == 0 && location.row() == 0b0000_0000_0000_0001,
        "LedLocation default is (0, 0)"
    );
}

#[test]
fn led_location_new() {
    let location = LedLocation::new(0, 0).unwrap();

    assert!(
        location.common() == 0 && location.row() == 0b0000_0000_0000_0001,
        "LedLocation is (0, 0)"
    );

    let location = LedLocation::new(15, 7).unwrap();

    assert!(
        location.common() == 7 && location.row() == 0b1000_0000_0000_0000,
        "LedLocation is (15, 7)"
    );
}

#[test]
#[should_panic]
fn row_too_large() {
    let _ = LedLocation::new(16, 0).unwrap();
}

#[test]
#[should_panic]
fn common_too_large() {
    let _ = LedLocation::new(0, 8).unwrap();
}

#[test]
fn row_rejected_with_exclusive_limit() {
    let error = LedLocation::new(16, 0).unwrap_err();
    let ValidationError::ValueTooLarge {
        name,
        value,
        limit,
        inclusive,
    } = error;
    assert_eq!(name, "row");
    assert_eq!(value, 16);
    assert_eq!(limit, ROWS_SIZE as u8);
    assert!(!inclusive);
}

#[test]
fn common_rejected_with_exclusive_limit() {
    let error = LedLocation::new(0, 8).unwrap_err();
    let ValidationError::ValueTooLarge {
        name,
        value,
        limit,
        inclusive,
    } = error;
    assert_eq!(name, "common");
    assert_eq!(value, 8);
    assert_eq!(limit, COMMONS_SIZE as u8);
    assert!(!inclusive);
}

#[test]
fn common_as_index() {
    let location = LedLocation::new(2, 2).unwrap();
    assert_eq!(2usize, location.common_as_index());
}

#[test]
fn common_as_index_on_chip_splits_words() {
    // Rows below 8 land on the even (low) byte slot, the rest on the odd one.
    assert_eq!(LedLocation::new(0, 0).unwrap().common_as_index_on_chip(), 0);
    assert_eq!(LedLocation::new(7, 0).unwrap().common_as_index_on_chip(), 0);
    assert_eq!(LedLocation::new(8, 0).unwrap().common_as_index_on_chip(), 1);
    assert_eq!(LedLocation::new(1, 7).unwrap().common_as_index_on_chip(), 14);
    assert_eq!(
        LedLocation::new(15, 7).unwrap().common_as_index_on_chip(),
        15
    );
}

#[test]
fn resolve_locate_roundtrip_row_addressed() {
    for row in 0..16u8 {
        for common in 0..8u8 {
            let location = LedLocation::new(row, common).unwrap();
            let (offset, bit) = location.resolve(Layout::RowAddressed);
            assert_eq!((offset, bit), (row, common));
            let back = LedLocation::locate(Layout::RowAddressed, offset, bit);
            assert_eq!(back, location);
        }
    }
}

#[test]
fn resolve_locate_roundtrip_common_packed() {
    for row in 0..16u8 {
        for common in 0..8u8 {
            let location = LedLocation::new(row, common).unwrap();
            let (offset, bit) = location.resolve(Layout::CommonPacked);
            assert_eq!(offset, 2 * common + u8::from(row >= 8));
            assert_eq!(bit, row % 8);
            let back = LedLocation::locate(Layout::CommonPacked, offset, bit);
            assert_eq!(back, location);
        }
    }
}
