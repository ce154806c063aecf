//! The colour of one light.

use vstd::prelude::*;

verus! {

/// Highest intensity that the device shows on one channel.
pub const MAX_INTENSITY: u8 = 127;

/// The intensity that the device is sent for a channel value: the value itself up to
/// `MAX_INTENSITY`, and `MAX_INTENSITY` for anything brighter.
pub open spec fn spec_clamp_intensity(value: u8) -> u8 {
    if value > MAX_INTENSITY {
        MAX_INTENSITY
    } else {
        value
    }
}

/// Limits a channel value to what the device can show.
#[verifier::when_used_as_spec(spec_clamp_intensity)]
pub fn clamp_intensity(value: u8) -> (level: u8)
    ensures
        level == spec_clamp_intensity(value),
        level <= MAX_INTENSITY,
{
    if value > MAX_INTENSITY {
        MAX_INTENSITY
    } else {
        value
    }
}

/// An RGB colour. Two colours are equal when their three channels are.
#[derive(Copy, Clone, Debug, PartialEq, Eq, Structural)]
pub struct LaunchpadColor {
    pub red: u8,
    pub green: u8,
    pub blue: u8,
}

impl LaunchpadColor {
    /// Every channel is within the device's range.
    pub open spec fn in_range(self) -> bool {
        self.red <= MAX_INTENSITY && self.green <= MAX_INTENSITY && self.blue <= MAX_INTENSITY
    }

    /// The colour as the device shows it: each channel limited to `MAX_INTENSITY`.
    pub open spec fn spec_clamped(self) -> LaunchpadColor {
        LaunchpadColor {
            red: clamp_intensity(self.red),
            green: clamp_intensity(self.green),
            blue: clamp_intensity(self.blue),
        }
    }

    pub open spec fn spec_black() -> LaunchpadColor {
        LaunchpadColor { red: 0, green: 0, blue: 0 }
    }

    pub open spec fn spec_red() -> LaunchpadColor {
        LaunchpadColor { red: 127, green: 0, blue: 0 }
    }

    pub open spec fn spec_green() -> LaunchpadColor {
        LaunchpadColor { red: 0, green: 127, blue: 0 }
    }

    pub open spec fn spec_blue() -> LaunchpadColor {
        LaunchpadColor { red: 0, green: 0, blue: 127 }
    }

    /// Builds a colour from three channel values, limiting each to `MAX_INTENSITY`.
    pub fn new(red: u8, green: u8, blue: u8) -> (color: LaunchpadColor)
        ensures
            color == (LaunchpadColor { red, green, blue }).spec_clamped(),
            color.in_range(),
    {
        LaunchpadColor {
            red: clamp_intensity(red),
            green: clamp_intensity(green),
            blue: clamp_intensity(blue),
        }
    }

    /// The colour with each channel limited to `MAX_INTENSITY`.
    #[verifier::when_used_as_spec(spec_clamped)]
    pub fn clamped(self) -> (color: LaunchpadColor)
        ensures
            color == self.spec_clamped(),
            color.in_range(),
            self.in_range() ==> color == self,
    {
        LaunchpadColor::new(self.red, self.green, self.blue)
    }

    /// A light that is off.
    #[verifier::when_used_as_spec(spec_black)]
    pub fn black() -> (color: LaunchpadColor)
        ensures
            color == Self::spec_black(),
    {
        LaunchpadColor { red: 0, green: 0, blue: 0 }
    }

    /// Full red.
    #[verifier::when_used_as_spec(spec_red)]
    pub fn red() -> (color: LaunchpadColor)
        ensures
            color == Self::spec_red(),
    {
        LaunchpadColor { red: MAX_INTENSITY, green: 0, blue: 0 }
    }

    /// Full green.
    #[verifier::when_used_as_spec(spec_green)]
    pub fn green() -> (color: LaunchpadColor)
        ensures
            color == Self::spec_green(),
    {
        LaunchpadColor { red: 0, green: MAX_INTENSITY, blue: 0 }
    }

    /// Full blue.
    #[verifier::when_used_as_spec(spec_blue)]
    pub fn blue() -> (color: LaunchpadColor)
        ensures
            color == Self::spec_blue(),
    {
        LaunchpadColor { red: 0, green: 0, blue: MAX_INTENSITY }
    }
}

} // verus!
