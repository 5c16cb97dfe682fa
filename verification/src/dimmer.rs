//! The decision core of the zero-cross pump dimmer.
//!
//! The dimmer drives its output as a duty cycle synchronized to the
//! mains zero crossings: each crossing adds the configured increment to
//! a sixteen-bit accumulator, and the output is driven high exactly on
//! the crossings where the accumulator wraps. The caller's task waits on
//! the zero-cross pin and the command queue; the arithmetic and the
//! drive decision live here.

use vstd::prelude::*;

verus! {

/// Why the dimmer stopped.
#[derive(Debug, Copy, Clone, PartialEq, Eq, Structural)]
pub enum DimmerError {
    /// No zero-cross signal arrived within the mains-period bound.
    NoZeroCross,
}

/// The dimmer's commanded duty: off, or a per-crossing accumulator
/// increment, where full scale means always on.
#[derive(Debug, Copy, Clone, PartialEq, Eq, Structural)]
pub enum DimmerSetting {
    Off,
    Level(u16),
}

/// The dimmer's decision state: its commanded setting and its duty
/// accumulator.
#[derive(Debug, Copy, Clone, PartialEq, Eq, Structural)]
pub struct ZeroCrossDimmer {
    pub setting: DimmerSetting,
    pub acc: u16,
}

impl ZeroCrossDimmer {
    /// A dimmer starts off, with an empty accumulator.
    pub fn new() -> (r: ZeroCrossDimmer)
        ensures
            r.setting == DimmerSetting::Off,
            r.acc == 0,
    {
        ZeroCrossDimmer { setting: DimmerSetting::Off, acc: 0 }
    }

    /// Takes a new command from the signal queue.
    pub fn set_command(&mut self, setting: DimmerSetting)
        ensures
            final(self).setting == setting,
            final(self).acc == old(self).acc,
    {
        self.setting = setting;
    }

    /// One zero crossing: off drives the output low and holds the
    /// accumulator; a level adds its increment, wrapping, and drives the
    /// output high exactly when the accumulator wrapped.
    pub fn on_zero_cross(&mut self) -> (high: bool)
        ensures
            final(self).setting == old(self).setting,
            match old(self).setting {
                DimmerSetting::Off => !high && final(self).acc == old(self).acc,
                DimmerSetting::Level(increment) => {
                    &&& final(self).acc == (old(self).acc + increment) % 0x10000
                    &&& high == (old(self).acc + increment >= 0x10000)
                },
            },
    {
        match self.setting {
            DimmerSetting::Off => false,
            DimmerSetting::Level(increment) => {
                let sum: u32 = self.acc as u32 + increment as u32;
                self.acc = (sum % 0x10000) as u16;
                sum >= 0x10000
            },
        }
    }
}

} // verus!
