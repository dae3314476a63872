mod dimming;
mod display;
mod led_location;
mod oscillator;

pub use self::dimming::Dimming;
pub use self::display::Display;
pub use self::led_location::lemma_locate_resolve_roundtrip;
pub use self::led_location::lemma_resolve_locate_roundtrip;
pub use self::led_location::spec_chip_offset;
pub use self::led_location::spec_locate;
pub use self::led_location::spec_resolve;
pub use self::led_location::LedLocation;
pub use self::led_location::Layout;
pub use self::oscillator::Oscillator;
