use crate::constants::BRIGHTNESS_MAX_LEVEL;
use crate::errors::ValidationError;
use vstd::prelude::*;

verus! {

/// Display dimming: the payload of the dimming register.
///
/// The whole display is dimmed via PWM at an (N+1)/16 duty cycle, where N is
/// the level; individual LEDs cannot be dimmed independently. The level is
/// validated at construction to lie in the inclusive range 0 to
/// [`BRIGHTNESS_MAX_LEVEL`]; a `Dimming` value outside that range cannot be
/// built.
#[derive(Clone, Copy, Debug, PartialEq, Eq, Structural)]
pub struct Dimming {
    level: u8,
}

impl Dimming {
    /// The validated brightness level, 0 (1/16 duty cycle) to 15 (16/16).
    pub closed spec fn spec_level(self) -> u8 {
        self.level
    }

    /// A constructed `Dimming` always holds a level within range.
    pub open spec fn wf(self) -> bool {
        self.spec_level() <= BRIGHTNESS_MAX_LEVEL
    }

    /// The payload bits this level contributes to the dimming command byte.
    pub open spec fn encoding(self) -> u8 {
        self.spec_level()
    }

    /// Return a validated `Dimming` value from the given `u8`.
    ///
    /// The brightness levels are 0-indexed: `0u8` means a 1/16 duty cycle and
    /// `15u8` means 16/16. A value above [`BRIGHTNESS_MAX_LEVEL`] is rejected
    /// with [`ValidationError::ValueTooLarge`] carrying the inclusive limit.
    pub fn from_u8(value: u8) -> (result: Result<Self, ValidationError>)
        ensures
            value <= BRIGHTNESS_MAX_LEVEL <==> result is Ok,
            result matches Ok(dimming) ==> dimming.spec_level() == value && dimming.wf(),
            value > BRIGHTNESS_MAX_LEVEL ==> (result matches Err(
                ValidationError::ValueTooLarge { name, value: v, limit, inclusive },
            ) && name@ == "Dimming"@ && v == value && limit == BRIGHTNESS_MAX_LEVEL
                && inclusive),
    {
        if value > BRIGHTNESS_MAX_LEVEL {
            return Err(ValidationError::ValueTooLarge {
                name: "Dimming",
                value,
                limit: BRIGHTNESS_MAX_LEVEL,
                inclusive: true,
            });
        }

        Ok(Dimming { level: value })
    }

    /// The validated brightness level.
    pub fn level(self) -> (level: u8)
        ensures
            level == self.spec_level(),
    {
        self.level
    }

    /// Minimum brightness: 1/16 PWM duty cycle.
    pub fn brightness_min() -> (dimming: Self)
        ensures
            dimming.spec_level() == 0 && dimming.wf(),
    {
        Dimming { level: 0 }
    }

    /// Maximum brightness: 16/16 PWM duty cycle.
    ///
    /// This is the power-on reset default.
    pub fn brightness_max() -> (dimming: Self)
        ensures
            dimming.spec_level() == BRIGHTNESS_MAX_LEVEL && dimming.wf(),
    {
        Dimming { level: BRIGHTNESS_MAX_LEVEL }
    }
}

impl Default for Dimming {
    /// The power-on reset default: maximum brightness.
    fn default() -> (dimming: Self)
        ensures
            dimming.spec_level() == BRIGHTNESS_MAX_LEVEL && dimming.wf(),
    {
        Dimming { level: BRIGHTNESS_MAX_LEVEL }
    }
}

} // verus!
