//! RTC clock control and the clock-calibration engine.
//!
//! Calibration measures an unknown slow clock against the main crystal by
//! counting crystal cycles over a window of slow-clock cycles. The hardware
//! counting unit (physically a feature of the first timer group, owned here
//! by the engine that drives it), the RTC clock-configuration registers and
//! the busy-wait delay collaborator are all modelled as plain owned state,
//! so the engine's arithmetic and its register discipline are stated and
//! proved exactly.
//!
//! The counting unit's outcome is staged in the [`RtcClock::response`]
//! field: the harness driving the model decides what the physical clock
//! network reports for the armed window. Starting a measurement makes that
//! outcome observable at once; the waiting an actual chip would do is
//! recorded in the busy-wait tally.

use vstd::arithmetic::div_mod::{lemma_basic_div, lemma_div_by_multiple};
use vstd::prelude::*;

use crate::chip::ChipVariant;
use crate::clock::{RtcCalSel, RtcFastClock, RtcSlowClock, XtalClock};

verus! {

/// Number of fractional bits in the Q13.19 fixed-point calibration values.
pub const CAL_FRACT: u32 = 19;

/// Number of divided fast-clock cycles used for crystal-frequency estimation.
pub const XTAL_FREQ_EST_CYCLES: u32 = 10;

/// What the physical clock network reports for an armed calibration window.
#[derive(Clone, Copy, Debug, PartialEq, Eq, Structural)]
pub enum CalResponse {
    /// The measured clock is running; the unit counts this many reference
    /// cycles within the window.
    Counted(u32),
    /// The measured clock never ticks (for example a missing 32 kHz
    /// crystal); the ready flag stays clear and only a timeout ends the
    /// measurement.
    Hung,
}

/// RTC clock-configuration registers, the calibration counting unit and the
/// modelled collaborators, owned as one exclusive register block.
pub struct RtcClock {
    /// Which chip variant's register block this is.
    pub chip: ChipVariant,
    /// Internal fast RC oscillator enabled.
    pub ck8m_enabled: bool,
    /// Divide-by-256 tap of the fast RC oscillator enabled.
    pub ck8m_d256_enabled: bool,
    /// Cycles to wait after switching the fast RC oscillator.
    pub ck8m_wait_cycles: u8,
    /// RTC SLOW_CLK source selection.
    pub slow_clk_sel: RtcSlowClock,
    /// RTC FAST_CLK source selection.
    pub fast_clk_sel: RtcFastClock,
    /// 32 kHz crystal routed to the digital domain.
    pub dig_xtal32k_en: bool,
    /// Fast RC oscillator forced on (kept alive in sleep).
    pub ck8m_force_pu: bool,
    /// Divided fast RC oscillator routed to the digital domain.
    pub dig_clk8m_d256_en: bool,
    /// Crystal frequency as recorded by the bootloader (two mirrored
    /// 16-bit halves).
    pub xtal_freq_reg: u32,
    /// Calibration unit: selected clock encoding.
    pub cal_clk_sel: u8,
    /// Calibration unit: continuous-cycling mode flag.
    pub cal_start_cycling: bool,
    /// Calibration unit: window length in slow-clock cycles.
    pub cal_max: u16,
    /// Calibration unit: start flag.
    pub cal_start: bool,
    /// Calibration unit: measurement-ready flag.
    pub cal_rdy: bool,
    /// Calibration unit: measured reference-cycle count.
    pub cal_value: u32,
    /// Calibration unit: timeout threshold.
    pub cal_timeout_thres: u32,
    /// Calibration unit: timeout flag (absent on the earliest variant).
    pub cal_timeout: bool,
    /// Staged outcome of the next measurement; stands for the physical
    /// clock network, which the verified driver cannot influence.
    pub response: CalResponse,
    /// Total microseconds handed to the busy-wait delay collaborator.
    pub busy_wait_us: u64,
}

/// The raw cycle count a calibration pass returns: the staged count when
/// the measured clock runs, and the zero sentinel when it hangs.
pub open spec fn spec_cal_raw(s: RtcClock) -> u32 {
    match s.response {
        CalResponse::Counted(c) => c,
        CalResponse::Hung => 0u32,
    }
}

/// Q13.19 ratio of measured cycles to one window cycle, truncated to
/// 32 bits: `(raw << 19) / cycles`.
pub open spec fn spec_cal_ratio(raw: u32, slowclk_cycles: u32) -> u32 {
    (((raw * 0x80000) / (slowclk_cycles as int)) % 0x1_0000_0000) as u32
}

/// Q13.19 period in microseconds of the measured clock, rounded to
/// nearest: `(raw << 19 + divider/2) / divider` with
/// `divider = xtal_mhz * cycles`, truncated to 32 bits.
pub open spec fn spec_cal_period(raw: u32, xtal_mhz: u32, slowclk_cycles: u32) -> u32 {
    let divider = (xtal_mhz as int) * (slowclk_cycles as int);
    (((raw * 0x80000 + divider / 2) / divider) % 0x1_0000_0000) as u32
}

/// Slow-clock cycles per millisecond derived from a Q13.19 period in
/// microseconds: `1000 / period` in fixed point, saturated to 16 bits.
/// A zero period is the timeout sentinel and saturates as an unavailable
/// measurement.
pub open spec fn spec_cycles_to_1ms_value(period_q13_19: u32) -> u16 {
    if period_q13_19 == 0 {
        0xFFFFu16
    } else {
        let v = 524_288_000int / (period_q13_19 as int);
        if v > 0xFFFF {
            0xFFFFu16
        } else {
            v as u16
        }
    }
}

/// Per-family calibration-target policy. The earliest variant calibrates
/// the literally requested clock; on every other variant the mux target
/// stands for whichever slow clock is currently selected, so it resolves
/// to the concrete backing clock, and the internal-oscillator target falls
/// back to the mux.
pub open spec fn spec_resolve_cal_target(
    chip: ChipVariant,
    cal_clk: RtcCalSel,
    slow: RtcSlowClock,
) -> RtcCalSel {
    if chip is Esp32 {
        cal_clk
    } else {
        match cal_clk {
            RtcCalSel::RtcCalRtcMux => match slow {
                RtcSlowClock::RtcSlowClock32kXtal => RtcCalSel::RtcCal32kXtal,
                RtcSlowClock::RtcSlowClock8mD256 => RtcCalSel::RtcCal8mD256,
                _ => RtcCalSel::RtcCalRtcMux,
            },
            RtcCalSel::RtcCalInternalOsc => RtcCalSel::RtcCalRtcMux,
            _ => cal_clk,
        }
    }
}

/// Crystal frequency decoded from the bootloader register: the two 16-bit
/// halves must agree and be neither all-zero nor all-one, otherwise the
/// 40 MHz default applies.
pub open spec fn spec_get_xtal_freq(reg: u32, chip: ChipVariant) -> XtalClock {
    if !((reg & 0xffff) == ((reg >> 16) & 0xffff) && reg != 0 && reg != 0xFFFF_FFFFu32) {
        XtalClock::RtcXtalFreq40M
    } else {
        let mhz = reg & 0xffff;
        if mhz == 40 {
            XtalClock::RtcXtalFreq40M
        } else if mhz == 32 && (chip is Esp32c3 || chip is Esp32s3) {
            XtalClock::RtcXtalFreq32M
        } else if mhz == 26 && chip is Esp32 {
            XtalClock::RtcXtalFreq26M
        } else if mhz == 24 && chip is Esp32 {
            XtalClock::RtcXtalFreq24M
        } else {
            XtalClock::RtcXtalFreqOther(mhz)
        }
    }
}

/// Crystal frequency estimate in whole megahertz derived from a Q13.19
/// ratio of crystal cycles to divided fast-clock cycles.
pub open spec fn spec_est_xtal_mhz(s: RtcClock) -> u32 {
    let ratio = spec_cal_ratio(spec_cal_raw(s), XTAL_FREQ_EST_CYCLES);
    let hz = RtcFastClock::RtcFastClock8m.spec_frequency_hz(s.chip);
    ((ratio * hz / 1_000_000 / 256) / 0x80000) as u32
}

/// Everything the calibration engine must leave as it found it: the whole
/// clock configuration, the identity of the block and the staged response.
pub open spec fn clock_config_unchanged(a: RtcClock, b: RtcClock) -> bool {
    &&& b.chip == a.chip
    &&& b.ck8m_enabled == a.ck8m_enabled
    &&& b.ck8m_d256_enabled == a.ck8m_d256_enabled
    &&& b.ck8m_wait_cycles == a.ck8m_wait_cycles
    &&& b.slow_clk_sel == a.slow_clk_sel
    &&& b.fast_clk_sel == a.fast_clk_sel
    &&& b.dig_xtal32k_en == a.dig_xtal32k_en
    &&& b.ck8m_force_pu == a.ck8m_force_pu
    &&& b.dig_clk8m_d256_en == a.dig_clk8m_d256_en
    &&& b.xtal_freq_reg == a.xtal_freq_reg
    &&& b.response == a.response
}

/// The RTC clock register block in its power-on state.
pub open spec fn spec_initial_rtc_clock(chip: ChipVariant) -> RtcClock {
    RtcClock {
        chip,
        ck8m_enabled: false,
        ck8m_d256_enabled: false,
        ck8m_wait_cycles: 20u8,
        slow_clk_sel: RtcSlowClock::RtcSlowClockRtc,
        fast_clk_sel: RtcFastClock::RtcFastClockXtalD4,
        dig_xtal32k_en: false,
        ck8m_force_pu: false,
        dig_clk8m_d256_en: false,
        xtal_freq_reg: 0u32,
        cal_clk_sel: 0u8,
        cal_start_cycling: false,
        cal_max: 0u16,
        cal_start: false,
        cal_rdy: false,
        cal_value: 0u32,
        cal_timeout_thres: 0u32,
        cal_timeout: false,
        response: CalResponse::Hung,
        busy_wait_us: 0u64,
    }
}

/// Saturating addition of busy-wait microseconds.
pub open spec fn spec_sat_add(a: u64, b: u64) -> u64 {
    if a + b > u64::MAX {
        u64::MAX
    } else {
        (a + b) as u64
    }
}

/// Resolve a calibration request to the concrete clock that will be
/// measured; the explicit per-family policy of the calibration engine.
pub fn resolve_cal_target(chip: ChipVariant, cal_clk: RtcCalSel, slow: RtcSlowClock) -> (r:
    RtcCalSel)
    ensures
        r == spec_resolve_cal_target(chip, cal_clk, slow),
{
    if matches!(chip, ChipVariant::Esp32) {
        cal_clk
    } else {
        match cal_clk {
            RtcCalSel::RtcCalRtcMux => match slow {
                RtcSlowClock::RtcSlowClock32kXtal => RtcCalSel::RtcCal32kXtal,
                RtcSlowClock::RtcSlowClock8mD256 => RtcCalSel::RtcCal8mD256,
                _ => RtcCalSel::RtcCalRtcMux,
            },
            RtcCalSel::RtcCalInternalOsc => RtcCalSel::RtcCalRtcMux,
            _ => cal_clk,
        }
    }
}

impl RtcClock {
    /// A register block in its power-on state, with no staged measurement
    /// outcome.
    pub fn new(chip: ChipVariant) -> (r: RtcClock)
        ensures
            r == spec_initial_rtc_clock(chip),
    {
        RtcClock {
            chip,
            ck8m_enabled: false,
            ck8m_d256_enabled: false,
            ck8m_wait_cycles: 20,
            slow_clk_sel: RtcSlowClock::RtcSlowClockRtc,
            fast_clk_sel: RtcFastClock::RtcFastClockXtalD4,
            dig_xtal32k_en: false,
            ck8m_force_pu: false,
            dig_clk8m_d256_en: false,
            xtal_freq_reg: 0,
            cal_clk_sel: 0,
            cal_start_cycling: false,
            cal_max: 0,
            cal_start: false,
            cal_rdy: false,
            cal_value: 0,
            cal_timeout_thres: 0,
            cal_timeout: false,
            response: CalResponse::Hung,
            busy_wait_us: 0,
        }
    }

    /// Hand the given number of microseconds to the busy-wait delay
    /// collaborator; the model only tallies them.
    fn delay_us(&mut self, us: u64)
        ensures
            *final(self) == (RtcClock {
                busy_wait_us: spec_sat_add(old(self).busy_wait_us, us),
                ..*old(self)
            }),
    {
        if self.busy_wait_us > u64::MAX - us {
            self.busy_wait_us = u64::MAX;
        } else {
            self.busy_wait_us = self.busy_wait_us + us;
        }
    }

    /// Enable or disable the internal fast RC oscillator and its
    /// divide-by-256 tap, waiting 50 microseconds for the oscillator to
    /// settle after enabling and 20 after disabling.
    pub fn enable_8m(&mut self, clk_8m_en: bool, d256_en: bool)
        ensures
            *final(self) == (RtcClock {
                ck8m_enabled: clk_8m_en,
                ck8m_d256_enabled: d256_en,
                ck8m_wait_cycles: if clk_8m_en {
                    5u8
                } else {
                    20u8
                },
                busy_wait_us: spec_sat_add(
                    old(self).busy_wait_us,
                    if clk_8m_en {
                        50u64
                    } else {
                        20u64
                    },
                ),
                ..*old(self)
            }),
    {
        if clk_8m_en {
            self.ck8m_enabled = true;
            self.ck8m_wait_cycles = 5;
            self.delay_us(50);
        } else {
            self.ck8m_enabled = false;
            self.ck8m_wait_cycles = 20;
            self.delay_us(20);
        }
        if d256_en {
            self.ck8m_d256_enabled = true;
        } else {
            self.ck8m_d256_enabled = false;
        }
    }

    /// The currently selected RTC SLOW_CLK source.
    pub fn get_slow_freq(&self) -> (r: RtcSlowClock)
        ensures
            r == self.slow_clk_sel,
    {
        self.slow_clk_sel
    }

    /// Select the RTC SLOW_CLK source, routing the 32 kHz crystal to the
    /// digital domain and forcing the fast oscillator on exactly when the
    /// chosen source needs it, then wait 300 microseconds to settle.
    pub fn set_slow_freq(&mut self, slow_freq: RtcSlowClock)
        ensures
            *final(self) == (RtcClock {
                slow_clk_sel: slow_freq,
                dig_xtal32k_en: slow_freq is RtcSlowClock32kXtal,
                ck8m_force_pu: slow_freq is RtcSlowClock8mD256,
                busy_wait_us: spec_sat_add(old(self).busy_wait_us, 300),
                ..*old(self)
            }),
    {
        self.slow_clk_sel = slow_freq;
        self.dig_xtal32k_en = matches!(slow_freq, RtcSlowClock::RtcSlowClock32kXtal);
        self.ck8m_force_pu = matches!(slow_freq, RtcSlowClock::RtcSlowClock8mD256);
        self.delay_us(300);
    }

    /// Select the RTC FAST_CLK source, then wait 3 microseconds to settle.
    pub fn set_fast_freq(&mut self, fast_freq: RtcFastClock)
        ensures
            *final(self) == (RtcClock {
                fast_clk_sel: fast_freq,
                busy_wait_us: spec_sat_add(old(self).busy_wait_us, 3),
                ..*old(self)
            }),
    {
        self.fast_clk_sel = fast_freq;
        self.delay_us(3);
    }

    /// Decode the crystal frequency recorded by the bootloader.
    pub fn get_xtal_freq(&self) -> (r: XtalClock)
        ensures
            r == spec_get_xtal_freq(self.xtal_freq_reg, self.chip),
            1 <= r.spec_mhz() <= 0xFFFF,
    {
        let reg = self.xtal_freq_reg;
        let valid = (reg & 0xffff) == ((reg >> 16u32) & 0xffff) && reg != 0 && reg
            != 0xFFFF_FFFFu32;
        proof {
            assert(((reg & 0xffff) == ((reg >> 16u32) & 0xffff) && reg != 0 && reg
                != 0xFFFF_FFFFu32) ==> (reg & 0xffff) >= 1) by (bit_vector);
            assert((reg & 0xffff) <= 0xFFFF) by (bit_vector);
        }
        if !valid {
            return XtalClock::RtcXtalFreq40M;
        }
        let mhz = reg & 0xffff;
        if mhz == 40 {
            XtalClock::RtcXtalFreq40M
        } else if mhz == 32 && matches!(self.chip, ChipVariant::Esp32c3 | ChipVariant::Esp32s3) {
            XtalClock::RtcXtalFreq32M
        } else if mhz == 26 && matches!(self.chip, ChipVariant::Esp32) {
            XtalClock::RtcXtalFreq26M
        } else if mhz == 24 && matches!(self.chip, ChipVariant::Esp32) {
            XtalClock::RtcXtalFreq24M
        } else {
            XtalClock::RtcXtalFreqOther(mhz)
        }
    }

    /// Measure the resolved target clock over a window of
    /// `slowclk_cycles` of its own cycles, counting reference cycles.
    ///
    /// Returns the raw count, or the zero sentinel when the measurement
    /// times out. Every register altered purely for the measurement — the
    /// digital routing of the 32 kHz crystal and of the divided fast
    /// oscillator — is restored to its pre-call value on every exit path.
    #[verifier::rlimit(60)]
    pub fn calibrate_internal(&mut self, cal_clk: RtcCalSel, slowclk_cycles: u32) -> (r: u32)
        ensures
            r == spec_cal_raw(*old(self)),
            clock_config_unchanged(*old(self), *final(self)),
            final(self).cal_start == false,
            final(self).cal_start_cycling == false,
            final(self).cal_max == slowclk_cycles as u16,
            final(self).cal_clk_sel == spec_resolve_cal_target(
                old(self).chip,
                cal_clk,
                old(self).slow_clk_sel,
            ).spec_bits(),
            final(self).cal_rdy == (old(self).response is Counted),
            final(self).cal_value == (match old(self).response {
                CalResponse::Counted(c) => c,
                CalResponse::Hung => old(self).cal_value,
            }),
            final(self).cal_timeout == (old(self).response is Hung && !(old(self).chip is Esp32)),
    {
        // The earliest variant calibrates the literally requested clock;
        // the others resolve the mux target first.
        let cal_clk = resolve_cal_target(self.chip, cal_clk, self.slow_clk_sel);

        // Enable the requested clock (the internal slow oscillator is
        // always on), remembering the prior routing so it can be restored.
        let dig_32k_prior = self.dig_xtal32k_en;
        let d256_prior = self.dig_clk8m_d256_en;

        if matches!(cal_clk, RtcCalSel::RtcCal32kXtal) && !dig_32k_prior {
            self.dig_xtal32k_en = true;
        }
        if matches!(cal_clk, RtcCalSel::RtcCal8mD256) {
            self.dig_clk8m_d256_en = true;
        }

        // A previous calibration may still be cycling on this unit; arm a
        // one-cycle timeout threshold so a hung prior measurement cannot
        // block this one, and wait for it to end either way. The modelled
        // threshold trips as soon as it is armed.
        if !matches!(self.chip, ChipVariant::Esp32) && self.cal_start_cycling {
            self.cal_timeout_thres = 1;
            if !self.cal_rdy {
                self.cal_timeout = true;
            }
            #[verifier::loop_isolation(false)]
            while !self.cal_rdy && !self.cal_timeout
                invariant
                    self.cal_rdy || self.cal_timeout,
                decreases 0int,
            {
            }
        }

        // Arm the unit with the target selector and the window length.
        self.cal_clk_sel = cal_clk.bits();
        self.cal_start_cycling = false;
        self.cal_max = #[verifier::truncate] (slowclk_cycles as u16);

        // Arm the hardware timeout threshold (no such register on the
        // earliest variant) and note which clock's nominal frequency
        // predicts the measurement duration.
        let expected_freq = match cal_clk {
            RtcCalSel::RtcCal32kXtal => {
                if !matches!(self.chip, ChipVariant::Esp32) {
                    self.cal_timeout_thres = slowclk_cycles << 12u32;
                }
                RtcSlowClock::RtcSlowClock32kXtal
            },
            RtcCalSel::RtcCal8mD256 => {
                if !matches!(self.chip, ChipVariant::Esp32) {
                    self.cal_timeout_thres = slowclk_cycles << 12u32;
                }
                RtcSlowClock::RtcSlowClock8mD256
            },
            _ => {
                if !matches!(self.chip, ChipVariant::Esp32) {
                    self.cal_timeout_thres = slowclk_cycles << 10u32;
                }
                RtcSlowClock::RtcSlowClockRtc
            },
        };

        let expected_hz = expected_freq.frequency_hz(self.chip);
        assert(expected_hz >= 32768);
        let us_time_estimate = (slowclk_cycles as u64) * 1_000_000 / (expected_hz as u64);

        // Start the measurement. The modelled counting unit reports the
        // staged outcome as soon as counting starts: the ready flag with
        // the count, or (where the hardware has one) the timeout flag.
        self.cal_start = false;
        self.cal_rdy = false;
        self.cal_timeout = false;
        self.cal_start = true;
        match self.response {
            CalResponse::Counted(c) => {
                self.cal_rdy = true;
                self.cal_value = c;
            },
            CalResponse::Hung => {
                if !matches!(self.chip, ChipVariant::Esp32) {
                    self.cal_timeout = true;
                }
            },
        }

        // Wait out the estimated measurement duration before polling.
        self.delay_us(us_time_estimate);

        // Poll for completion. The outcome is already observable, so the
        // first poll decides; on the earliest variant, which has no
        // hardware timeout flag, a hung measurement burns a software
        // countdown of one poll per microsecond before it is abandoned.
        let cal_val: u32;
        if self.cal_rdy {
            cal_val = self.cal_value;
        } else if !matches!(self.chip, ChipVariant::Esp32) {
            cal_val = 0;
        } else {
            self.software_timeout_countdown(us_time_estimate);
            cal_val = 0;
        }

        // Stop the unit and restore every register altered purely for the
        // measurement, on this and every other exit path.
        self.cal_start = false;
        self.dig_xtal32k_en = dig_32k_prior;
        self.dig_clk8m_d256_en = d256_prior;

        cal_val
    }

    /// Software-emulated measurement timeout for the variant without a
    /// hardware timeout flag: one poll per microsecond until the budget is
    /// spent. The modelled clocks never complete late, so the countdown
    /// only burns its budget of busy-wait time.
    fn software_timeout_countdown(&mut self, budget_us: u64)
        ensures
            *final(self) == (RtcClock { busy_wait_us: final(self).busy_wait_us, ..*old(self) }),
    {
        let mut timeout_us = budget_us;
        let ghost pre = *self;
        #[verifier::loop_isolation(false)]
        while timeout_us > 0
            invariant
                *self == (RtcClock { busy_wait_us: self.busy_wait_us, ..pre }),
            decreases timeout_us,
        {
            timeout_us -= 1;
            self.delay_us(1);
        }
    }

    /// Q13.19 ratio between reference-clock and target-clock frequency,
    /// measured over `slowclk_cycles` target cycles.
    ///
    /// A result of zero is the timeout sentinel and means the measurement
    /// is unavailable, never a real zero-frequency reading.
    pub fn get_calibration_ratio(&mut self, cal_clk: RtcCalSel, slowclk_cycles: u32) -> (r: u32)
        requires
            slowclk_cycles > 0,
        ensures
            r == spec_cal_ratio(spec_cal_raw(*old(self)), slowclk_cycles),
            clock_config_unchanged(*old(self), *final(self)),
    {
        let xtal_cycles = self.calibrate_internal(cal_clk, slowclk_cycles) as u64;
        let shifted = xtal_cycles << CAL_FRACT;
        proof {
            assert(shifted == xtal_cycles * 0x80000) by (bit_vector)
                requires
                    shifted == xtal_cycles << 19u64,
                    xtal_cycles <= 0xFFFF_FFFFu64,
            ;
        }
        let ratio = shifted / (slowclk_cycles as u64);
        let masked = ratio & (u32::MAX as u64);
        proof {
            assert(masked == ratio % 0x1_0000_0000) by (bit_vector)
                requires
                    masked == ratio & 0xFFFF_FFFFu64,
            ;
        }
        masked as u32
    }

    /// Q13.19 period of the target clock in microseconds, measured over
    /// `slowclk_cycles` target cycles against the recorded crystal
    /// frequency, rounded to nearest rather than truncated.
    ///
    /// A result of zero is the timeout sentinel: the clock being measured
    /// never started (for instance a missing or misloaded 32 kHz crystal).
    pub fn calibrate(&mut self, cal_clk: RtcCalSel, slowclk_cycles: u32) -> (r: u32)
        requires
            slowclk_cycles > 0,
        ensures
            r == spec_cal_period(
                spec_cal_raw(*old(self)),
                spec_get_xtal_freq(old(self).xtal_freq_reg, old(self).chip).spec_mhz(),
                slowclk_cycles,
            ),
            clock_config_unchanged(*old(self), *final(self)),
    {
        let xtal_freq = self.get_xtal_freq();
        let xtal_cycles = self.calibrate_internal(cal_clk, slowclk_cycles) as u64;
        let mhz = xtal_freq.mhz() as u64;
        proof {
            assert(1 <= mhz * (slowclk_cycles as u64) <= 0xFFFF * 0xFFFF_FFFFu64)
                by (nonlinear_arith)
                requires
                    1 <= mhz <= 0xFFFF,
                    1 <= slowclk_cycles <= 0xFFFF_FFFFu64,
            ;
        }
        let divider = mhz * (slowclk_cycles as u64);
        let shifted = xtal_cycles << CAL_FRACT;
        proof {
            assert(shifted == xtal_cycles * 0x80000) by (bit_vector)
                requires
                    shifted == xtal_cycles << 19u64,
                    xtal_cycles <= 0xFFFF_FFFFu64,
            ;
        }
        let period_64 = (shifted + divider / 2) / divider;
        let masked = period_64 & (u32::MAX as u64);
        proof {
            assert(masked == period_64 % 0x1_0000_0000) by (bit_vector)
                requires
                    masked == period_64 & 0xFFFF_FFFFu64,
            ;
        }
        masked as u32
    }

    /// Slow-clock cycles per millisecond: calibrates the currently active
    /// slow clock over 1024 of its cycles and inverts the Q13.19 period.
    ///
    /// When calibration timed out the result saturates to the maximum and
    /// must be treated as unavailable.
    pub fn cycles_to_1ms(&mut self) -> (r: u16)
        ensures
            r == spec_cycles_to_1ms_value(
                spec_cal_period(
                    spec_cal_raw(*old(self)),
                    spec_get_xtal_freq(old(self).xtal_freq_reg, old(self).chip).spec_mhz(),
                    1024,
                ),
            ),
            clock_config_unchanged(*old(self), *final(self)),
    {
        let cal_sel = match self.get_slow_freq() {
            RtcSlowClock::RtcSlowClockRtc => RtcCalSel::RtcCalRtcMux,
            RtcSlowClock::RtcSlowClock32kXtal => RtcCalSel::RtcCal32kXtal,
            RtcSlowClock::RtcSlowClock8mD256 => RtcCalSel::RtcCal8mD256,
        };
        let period_13q19 = self.calibrate(cal_sel, 1024);
        if period_13q19 == 0 {
            return u16::MAX;
        }
        let numerator = 1000u64 << CAL_FRACT;
        proof {
            assert(numerator == 524_288_000u64) by (bit_vector)
                requires
                    numerator == 1000u64 << 19u64,
            ;
        }
        let v = numerator / (period_13q19 as u64);
        if v > 0xFFFF {
            u16::MAX
        } else {
            v as u16
        }
    }

    /// Estimate the main crystal frequency in whole megahertz by
    /// calibrating the divided fast RC oscillator against the crystal over
    /// a small fixed window.
    ///
    /// The fast oscillator and its divider are forced on for the duration
    /// of the measurement if they were off, and their enable state is
    /// restored exactly as found.
    pub fn estimate_xtal_frequency(&mut self) -> (r: u32)
        ensures
            r == spec_est_xtal_mhz(*old(self)),
            final(self).ck8m_enabled == old(self).ck8m_enabled,
            final(self).ck8m_d256_enabled == old(self).ck8m_d256_enabled,
            final(self).ck8m_wait_cycles == if old(self).ck8m_enabled {
                5u8
            } else {
                20u8
            },
            final(self).chip == old(self).chip,
            final(self).response == old(self).response,
            final(self).slow_clk_sel == old(self).slow_clk_sel,
            final(self).fast_clk_sel == old(self).fast_clk_sel,
            final(self).dig_xtal32k_en == old(self).dig_xtal32k_en,
            final(self).ck8m_force_pu == old(self).ck8m_force_pu,
            final(self).dig_clk8m_d256_en == old(self).dig_clk8m_d256_en,
            final(self).xtal_freq_reg == old(self).xtal_freq_reg,
    {
        let clk_8m_enabled = self.ck8m_enabled;
        let clk_8md256_enabled = self.ck8m_d256_enabled;

        if !clk_8md256_enabled {
            self.enable_8m(true, true);
        }

        let ratio = self.get_calibration_ratio(RtcCalSel::RtcCal8mD256, XTAL_FREQ_EST_CYCLES)
            as u64;
        let hz_8m = RtcFastClock::RtcFastClock8m.frequency_hz(self.chip) as u64;
        let scaled = ratio * hz_8m / 1_000_000 / 256;
        let freq_mhz_64 = scaled >> CAL_FRACT;
        proof {
            assert(ratio * hz_8m <= 0xFFFF_FFFFu64 * 17_500_000) by (nonlinear_arith)
                requires
                    ratio <= 0xFFFF_FFFFu64,
                    hz_8m <= 17_500_000u64,
            ;
            assert(freq_mhz_64 == scaled / 0x80000 && freq_mhz_64 <= scaled) by (bit_vector)
                requires
                    freq_mhz_64 == scaled >> 19u64,
            ;
        }
        let freq_mhz = freq_mhz_64 as u32;

        self.enable_8m(clk_8m_enabled, clk_8md256_enabled);

        freq_mhz
    }
}

/// Measuring a clock that reports exactly `k` reference cycles per window
/// cycle gives the ratio `k` exactly, in Q13.19: with a raw count of
/// `k * w` over a window of `w` cycles, the computed ratio is `k << 19`
/// (truncated to 32 bits, exact whenever `k` fits the 13 integer bits).
pub proof fn lemma_ratio_exact_multiple(k: u32, w: u32)
    requires
        w > 0,
        k * w <= u32::MAX,
    ensures
        spec_cal_ratio((k * w) as u32, w) == (k * 0x80000) % 0x1_0000_0000,
        k < 0x2000 ==> spec_cal_ratio((k * w) as u32, w) == k * 0x80000,
{
    let raw = (k * w) as u32;
    assert(raw * 0x80000 == (k * 0x80000) * (w as int)) by (nonlinear_arith)
        requires
            raw == k * w,
    ;
    lemma_div_by_multiple(k * 0x80000, w as int);
    assert((raw * 0x80000) / (w as int) == k * 0x80000);
    if k < 0x2000 {
        assert((k * 0x80000) % 0x1_0000_0000 == k * 0x80000) by (nonlinear_arith)
            requires
                0 <= k < 0x2000,
        ;
    }
}

/// A raw calibration value of zero — the timeout sentinel — always yields
/// ratio zero and period zero; both stand for "measurement unavailable"
/// and never for a real zero-frequency reading.
pub proof fn lemma_zero_raw_is_sentinel(xtal_mhz: u32, slowclk_cycles: u32)
    requires
        xtal_mhz >= 1,
        slowclk_cycles >= 1,
    ensures
        spec_cal_ratio(0, slowclk_cycles) == 0,
        spec_cal_period(0, xtal_mhz, slowclk_cycles) == 0,
{
    let divider = (xtal_mhz as int) * (slowclk_cycles as int);
    assert(divider >= 1) by (nonlinear_arith)
        requires
            xtal_mhz >= 1 && slowclk_cycles >= 1,
            divider == (xtal_mhz as int) * (slowclk_cycles as int),
    ;
    lemma_basic_div(0, slowclk_cycles as int);
    lemma_basic_div(divider / 2, divider);
}

} // verus!
