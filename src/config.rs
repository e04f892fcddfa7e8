//! The run's settings, checked before the simulation starts.

use vstd::prelude::*;

verus! {

/// A setting out of its range. Each is fatal at startup.
#[derive(Clone, Copy, Debug, PartialEq, Eq, Structural)]
pub enum ConfigError {
    /// `states` is not in `1..=255`.
    States,
    /// `symbols` is not in `1..=255`.
    Symbols,
    /// `width` is below 1 or does not fit in `usize`.
    Width,
    /// `height` is below 1 or does not fit in `usize`.
    Height,
    /// A frame of `width * height * 3` bytes does not fit in memory.
    GridTooLarge,
    /// `reset_steps` is not in `0..=u32::MAX`.
    ResetSteps,
    /// `picture_steps` is not in `1..=u32::MAX`.
    PictureSteps,
}

/// The settings of a run, all in range.
#[derive(Clone, Copy, Debug, PartialEq, Eq, Structural)]
pub struct Config {
    pub states: u8,
    pub symbols: u8,
    pub width: usize,
    pub height: usize,
    pub reset_steps: u32,
    pub picture_steps: u32,
}

/// The first setting out of range, checked in the order of the fields of
/// `ConfigError`; `None` when all are in range.
pub open spec fn config_error(
    states: int,
    symbols: int,
    width: int,
    height: int,
    reset_steps: int,
    picture_steps: int,
) -> Option<ConfigError> {
    if !(1 <= states <= 255) {
        Some(ConfigError::States)
    } else if !(1 <= symbols <= 255) {
        Some(ConfigError::Symbols)
    } else if !(1 <= width <= usize::MAX) {
        Some(ConfigError::Width)
    } else if !(1 <= height <= usize::MAX) {
        Some(ConfigError::Height)
    } else if width * height * 3 > usize::MAX {
        Some(ConfigError::GridTooLarge)
    } else if !(0 <= reset_steps <= u32::MAX) {
        Some(ConfigError::ResetSteps)
    } else if !(1 <= picture_steps <= u32::MAX) {
        Some(ConfigError::PictureSteps)
    } else {
        None
    }
}

impl Config {
    /// Whether every setting is in range.
    pub open spec fn valid(self) -> bool {
        &&& self.states >= 1
        &&& self.symbols >= 1
        &&& self.width >= 1
        &&& self.height >= 1
        &&& self.width * self.height * 3 <= usize::MAX
        &&& self.picture_steps >= 1
    }

    /// The settings from their raw integer values, or the first one out of range.
    pub fn from_values(
        states: i64,
        symbols: i64,
        width: i64,
        height: i64,
        reset_steps: i64,
        picture_steps: i64,
    ) -> (r: Result<Config, ConfigError>)
        ensures
            r is Err <==> config_error(
                states as int,
                symbols as int,
                width as int,
                height as int,
                reset_steps as int,
                picture_steps as int,
            ) is Some,
            r matches Err(e) ==> config_error(
                states as int,
                symbols as int,
                width as int,
                height as int,
                reset_steps as int,
                picture_steps as int,
            ) == Some(e),
            r matches Ok(c) ==> {
                &&& c.valid()
                &&& c.states == states
                &&& c.symbols == symbols
                &&& c.width == width
                &&& c.height == height
                &&& c.reset_steps == reset_steps
                &&& c.picture_steps == picture_steps
            },
    {
        if states < 1 || states > 255 {
            return Err(ConfigError::States);
        }
        if symbols < 1 || symbols > 255 {
            return Err(ConfigError::Symbols);
        }
        if width < 1 || width as u64 > usize::MAX as u64 {
            return Err(ConfigError::Width);
        }
        if height < 1 || height as u64 > usize::MAX as u64 {
            return Err(ConfigError::Height);
        }
        let w = width as usize;
        let h = height as usize;
        let frame = match w.checked_mul(h) {
            Some(cells) => cells.checked_mul(3),
            None => {
                assert(w * h * 3 > usize::MAX) by (nonlinear_arith)
                    requires
                        w * h > usize::MAX,
                ;
                None
            },
        };
        if frame.is_none() {
            return Err(ConfigError::GridTooLarge);
        }
        if reset_steps < 0 || reset_steps > u32::MAX as i64 {
            return Err(ConfigError::ResetSteps);
        }
        if picture_steps < 1 || picture_steps > u32::MAX as i64 {
            return Err(ConfigError::PictureSteps);
        }
        Ok(
            Config {
                states: states as u8,
                symbols: symbols as u8,
                width: w,
                height: h,
                reset_steps: reset_steps as u32,
                picture_steps: picture_steps as u32,
            },
        )
    }
}

} // verus!
