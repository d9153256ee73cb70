//! Chip-variant selection.
//!
//! The supported microcontroller variants differ in register layout,
//! available clock sources and a few algorithmic details. The variant is
//! chosen once, when the drivers are constructed, and every chip-conditional
//! branch is an explicit policy decision over this value.

use vstd::prelude::*;

verus! {

/// One of the supported microcontroller variants.
#[derive(Clone, Copy, Debug, PartialEq, Eq, Structural)]
pub enum ChipVariant {
    Esp32,
    Esp32s2,
    Esp32s3,
    Esp32c3,
}

impl ChipVariant {
    /// Whether the variant has the super watchdog peripheral.
    pub fn has_super_watchdog(&self) -> (r: bool)
        ensures
            r == self.spec_has_super_watchdog(),
    {
        matches!(self, ChipVariant::Esp32c3 | ChipVariant::Esp32s3)
    }

    pub open spec fn spec_has_super_watchdog(&self) -> bool {
        self is Esp32c3 || self is Esp32s3
    }

    /// Whether each timer group of the variant has a second counter unit.
    pub fn has_second_timer(&self) -> (r: bool)
        ensures
            r == self.spec_has_second_timer(),
    {
        !matches!(self, ChipVariant::Esp32c3)
    }

    pub open spec fn spec_has_second_timer(&self) -> bool {
        !(self is Esp32c3)
    }
}

} // verus!
