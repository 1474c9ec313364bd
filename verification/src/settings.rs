//! The parameters of a sketch and the limits that the control panel keeps.
//!
//! Lengths are whole numbers of length units, `LENGTH_SCALE` of them to one
//! unit length of the host. Angles are whole numbers of angle units,
//! `ANGLE_SCALE` of them to one radian.

use vstd::prelude::*;

verus! {

/// Length units in one unit length of the host.
pub const LENGTH_SCALE: u32 = 1_000;

/// Angle units in one radian.
pub const ANGLE_SCALE: u32 = 1_000_000;

/// The seed of every session.
pub const DEFAULT_SEED: u64 = 42;

/// Width of the stroke of every square outline, in length units.
pub const STROKE_WEIGHT: u32 = 1_500;

/// Smallest side that the control panel offers.
pub const CUBE_SIZE_MIN: u32 = 10_000;

/// Largest side that the control panel offers.
pub const CUBE_SIZE_MAX: u32 = 200_000;

/// Smallest angle noise that the control panel offers: a hundredth of a radian.
pub const ANGLE_NOISE_MIN: u32 = 10_000;

/// Largest angle noise that the control panel offers: a quarter turn, rounded down.
pub const ANGLE_NOISE_MAX: u32 = 1_570_796;

/// Smallest translation noise that the control panel offers.
pub const TRANSLATION_NOISE_MIN: u32 = 10;

/// Largest translation noise that the control panel offers.
pub const TRANSLATION_NOISE_MAX: u32 = 25_000;

/// What a sketch is drawn from, besides the seed and the drawable area.
#[derive(Clone, Copy, Debug, PartialEq, Eq, Structural)]
pub struct Settings {
    /// Side of each square, in length units. Positive in a valid value.
    pub cube_size: u32,
    /// Padding taken off each of the four edges of the drawable area.
    pub border_size: u32,
    /// Half-width of the rotation jitter at full intensity, in angle units.
    pub angle_noise: u32,
    /// Half-width of the jitter of each coordinate at full intensity.
    pub translation_noise: u32,
}

/// One change made on the control panel.
#[derive(Clone, Copy, Debug, PartialEq, Eq, Structural)]
pub enum ControlInput {
    CubeSize(u32),
    BorderSize(u32),
    AngleNoise(u32),
    TranslationNoise(u32),
}

/// `value` moved to the nearest point of `low ..= high`.
pub open spec fn clamped(value: u32, low: u32, high: u32) -> u32 {
    if value < low {
        low
    } else if value > high {
        high
    } else {
        value
    }
}

/// Moves `value` to the nearest point of `low ..= high`.
pub fn clamp_to(value: u32, low: u32, high: u32) -> (out: u32)
    requires
        low <= high,
    ensures
        out == clamped(value, low, high),
        low <= out <= high,
{
    if value < low {
        low
    } else if value > high {
        high
    } else {
        value
    }
}

impl Settings {
    /// A layout divides by the side, so the side must be positive.
    pub open spec fn valid(&self) -> bool {
        self.cube_size > 0
    }

    /// The settings of a fresh session.
    pub open spec fn initial_spec() -> Settings {
        Settings {
            cube_size: 50_000,
            border_size: 30_000,
            angle_noise: 500_000,
            translation_noise: 15_000,
        }
    }

    /// The settings after one change on the control panel: the changed
    /// parameter is held to the panel's limits, the others stay.
    pub open spec fn with_input(self, input: ControlInput) -> Settings {
        match input {
            ControlInput::CubeSize(v) => Settings {
                cube_size: clamped(v, CUBE_SIZE_MIN, CUBE_SIZE_MAX),
                ..self
            },
            ControlInput::BorderSize(v) => Settings { border_size: v, ..self },
            ControlInput::AngleNoise(v) => Settings {
                angle_noise: clamped(v, ANGLE_NOISE_MIN, ANGLE_NOISE_MAX),
                ..self
            },
            ControlInput::TranslationNoise(v) => Settings {
                translation_noise: clamped(v, TRANSLATION_NOISE_MIN, TRANSLATION_NOISE_MAX),
                ..self
            },
        }
    }

    /// The settings of a fresh session: sides of 50, a border of 30, half a
    /// radian of angle noise and 15 of translation noise.
    pub fn initial() -> (s: Settings)
        ensures
            s == Settings::initial_spec(),
            s.valid(),
    {
        Settings {
            cube_size: 50_000,
            border_size: 30_000,
            angle_noise: 500_000,
            translation_noise: 15_000,
        }
    }

    /// Applies one change made on the control panel.
    pub fn on_user_input(&mut self, input: ControlInput)
        ensures
            *final(self) == old(self).with_input(input),
            old(self).valid() ==> final(self).valid(),
            input is CubeSize ==> final(self).valid(),
    {
        match input {
            ControlInput::CubeSize(v) => {
                self.cube_size = clamp_to(v, CUBE_SIZE_MIN, CUBE_SIZE_MAX);
            },
            ControlInput::BorderSize(v) => {
                self.border_size = v;
            },
            ControlInput::AngleNoise(v) => {
                self.angle_noise = clamp_to(v, ANGLE_NOISE_MIN, ANGLE_NOISE_MAX);
            },
            ControlInput::TranslationNoise(v) => {
                self.translation_noise = clamp_to(
                    v,
                    TRANSLATION_NOISE_MIN,
                    TRANSLATION_NOISE_MAX,
                );
            },
        }
    }
}

} // verus!
