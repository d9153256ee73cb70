//! Clock source registry: the closed sets of RTC fast-clock, slow-clock and
//! calibration sources, together with their nominal frequencies.
//!
//! The internal RC oscillator frequencies are factory-approximate nominal
//! values; a device's true frequency is discovered by calibration.

use vstd::prelude::*;

use crate::chip::ChipVariant;

verus! {

/// RTC FAST_CLK source selection values.
#[derive(Clone, Copy, Debug, PartialEq, Eq, Structural)]
pub enum RtcFastClock {
    /// Main XTAL, divided by 4.
    RtcFastClockXtalD4,
    /// Internal fast RC oscillator.
    RtcFastClock8m,
}

impl RtcFastClock {
    /// Register encoding of this selection.
    pub fn bits(&self) -> (r: u8)
        ensures
            r == self.spec_bits(),
    {
        match self {
            RtcFastClock::RtcFastClockXtalD4 => 0,
            RtcFastClock::RtcFastClock8m => 1,
        }
    }

    pub open spec fn spec_bits(&self) -> u8 {
        match self {
            RtcFastClock::RtcFastClockXtalD4 => 0u8,
            RtcFastClock::RtcFastClock8m => 1u8,
        }
    }

    /// Nominal frequency of the source, in hertz.
    ///
    /// The internal fast RC oscillator runs at a different nominal rate on
    /// the later chip variants.
    pub fn frequency_hz(&self, chip: ChipVariant) -> (r: u32)
        ensures
            r == self.spec_frequency_hz(chip),
    {
        match self {
            RtcFastClock::RtcFastClockXtalD4 => 40_000_000 / 4,
            RtcFastClock::RtcFastClock8m => match chip {
                ChipVariant::Esp32 | ChipVariant::Esp32s2 => 8_500_000,
                ChipVariant::Esp32c3 | ChipVariant::Esp32s3 => 17_500_000,
            },
        }
    }

    pub open spec fn spec_frequency_hz(&self, chip: ChipVariant) -> u32 {
        match self {
            RtcFastClock::RtcFastClockXtalD4 => 10_000_000u32,
            RtcFastClock::RtcFastClock8m => if chip is Esp32 || chip is Esp32s2 {
                8_500_000u32
            } else {
                17_500_000u32
            },
        }
    }
}

/// RTC SLOW_CLK source selection values.
#[derive(Clone, Copy, Debug, PartialEq, Eq, Structural)]
pub enum RtcSlowClock {
    /// Internal slow RC oscillator.
    RtcSlowClockRtc,
    /// External 32 kHz XTAL.
    RtcSlowClock32kXtal,
    /// Internal fast RC oscillator, divided by 256.
    RtcSlowClock8mD256,
}

impl RtcSlowClock {
    /// Register encoding of this selection.
    pub fn bits(&self) -> (r: u8)
        ensures
            r == self.spec_bits(),
    {
        match self {
            RtcSlowClock::RtcSlowClockRtc => 0,
            RtcSlowClock::RtcSlowClock32kXtal => 1,
            RtcSlowClock::RtcSlowClock8mD256 => 2,
        }
    }

    pub open spec fn spec_bits(&self) -> u8 {
        match self {
            RtcSlowClock::RtcSlowClockRtc => 0u8,
            RtcSlowClock::RtcSlowClock32kXtal => 1u8,
            RtcSlowClock::RtcSlowClock8mD256 => 2u8,
        }
    }

    /// Nominal frequency of the source, in hertz.
    ///
    /// The internal slow RC oscillator's nominal rate differs by chip
    /// family; all the values are approximate factory defaults.
    pub fn frequency_hz(&self, chip: ChipVariant) -> (r: u32)
        ensures
            r == self.spec_frequency_hz(chip),
    {
        match self {
            RtcSlowClock::RtcSlowClockRtc => match chip {
                ChipVariant::Esp32 => 150_000,
                ChipVariant::Esp32s2 => 90_000,
                ChipVariant::Esp32c3 | ChipVariant::Esp32s3 => 136_000,
            },
            RtcSlowClock::RtcSlowClock32kXtal => 32768,
            RtcSlowClock::RtcSlowClock8mD256 => match chip {
                ChipVariant::Esp32 | ChipVariant::Esp32s2 => 8_500_000 / 256,
                ChipVariant::Esp32c3 | ChipVariant::Esp32s3 => 17_500_000 / 256,
            },
        }
    }

    pub open spec fn spec_frequency_hz(&self, chip: ChipVariant) -> u32 {
        match self {
            RtcSlowClock::RtcSlowClockRtc => if chip is Esp32 {
                150_000u32
            } else if chip is Esp32s2 {
                90_000u32
            } else {
                136_000u32
            },
            RtcSlowClock::RtcSlowClock32kXtal => 32768u32,
            RtcSlowClock::RtcSlowClock8mD256 => if chip is Esp32 || chip is Esp32s2 {
                (8_500_000u32 / 256) as u32
            } else {
                (17_500_000u32 / 256) as u32
            },
        }
    }
}

/// Clock source to be measured by the calibration engine.
#[derive(Clone, Copy, Debug, PartialEq, Eq, Structural)]
pub enum RtcCalSel {
    /// Currently selected RTC SLOW_CLK.
    RtcCalRtcMux,
    /// Internal fast RC oscillator, divided by 256.
    RtcCal8mD256,
    /// External 32 kHz XTAL.
    RtcCal32kXtal,
    /// Internal slow RC oscillator (not selectable on the earliest variant).
    RtcCalInternalOsc,
}

impl RtcCalSel {
    /// Register encoding of this selection.
    pub fn bits(&self) -> (r: u8)
        ensures
            r == self.spec_bits(),
    {
        match self {
            RtcCalSel::RtcCalRtcMux => 0,
            RtcCalSel::RtcCal8mD256 => 1,
            RtcCalSel::RtcCal32kXtal => 2,
            RtcCalSel::RtcCalInternalOsc => 3,
        }
    }

    pub open spec fn spec_bits(&self) -> u8 {
        match self {
            RtcCalSel::RtcCalRtcMux => 0u8,
            RtcCalSel::RtcCal8mD256 => 1u8,
            RtcCalSel::RtcCal32kXtal => 2u8,
            RtcCalSel::RtcCalInternalOsc => 3u8,
        }
    }
}

/// Main crystal frequency, as recorded by the bootloader.
#[derive(Clone, Copy, Debug, PartialEq, Eq, Structural)]
pub enum XtalClock {
    RtcXtalFreq40M,
    RtcXtalFreq32M,
    RtcXtalFreq26M,
    RtcXtalFreq24M,
    RtcXtalFreqOther(u32),
}

impl XtalClock {
    /// The crystal frequency in whole megahertz.
    pub fn mhz(&self) -> (r: u32)
        ensures
            r == self.spec_mhz(),
    {
        match self {
            XtalClock::RtcXtalFreq40M => 40,
            XtalClock::RtcXtalFreq32M => 32,
            XtalClock::RtcXtalFreq26M => 26,
            XtalClock::RtcXtalFreq24M => 24,
            XtalClock::RtcXtalFreqOther(mhz) => *mhz,
        }
    }

    pub open spec fn spec_mhz(&self) -> u32 {
        match self {
            XtalClock::RtcXtalFreq40M => 40u32,
            XtalClock::RtcXtalFreq32M => 32u32,
            XtalClock::RtcXtalFreq26M => 26u32,
            XtalClock::RtcXtalFreq24M => 24u32,
            XtalClock::RtcXtalFreqOther(mhz) => *mhz,
        }
    }
}

} // verus!
