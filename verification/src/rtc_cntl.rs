//! RTC control block: the main RTC watchdog, the super watchdog and the
//! top-level `Rtc` driver that owns them together with the clock block.
//!
//! Every watchdog operation brackets its protected register writes with
//! the peripheral's unlock key and the lock value, and each contract
//! states that bracket explicitly over the protect-register write log.

use vstd::prelude::*;

use crate::chip::ChipVariant;
use crate::protect::{ProtectReg, LOCK_KEY, SWD_UNLOCK_KEY, WDT_UNLOCK_KEY};
use crate::rtc_clock::{
    clock_config_unchanged, spec_cal_period, spec_cal_raw, spec_cycles_to_1ms_value,
    spec_get_xtal_freq, spec_initial_rtc_clock, RtcClock,
};
use crate::units::MicrosecondDuration;

verus! {

/// Behavior of a main-watchdog stage when it times out.
#[derive(Clone, Copy, Debug, PartialEq, Eq, Structural)]
pub enum RwdtStageAction {
    RwdtStageActionOff,
    RwdtStageActionInterrupt,
    RwdtStageActionResetCpu,
    RwdtStageActionResetSystem,
    RwdtStageActionResetRtc,
}

impl RwdtStageAction {
    /// Register encoding of this action.
    pub fn bits(&self) -> (r: u8)
        ensures
            r == self.spec_bits(),
    {
        match self {
            RwdtStageAction::RwdtStageActionOff => 0,
            RwdtStageAction::RwdtStageActionInterrupt => 1,
            RwdtStageAction::RwdtStageActionResetCpu => 2,
            RwdtStageAction::RwdtStageActionResetSystem => 3,
            RwdtStageAction::RwdtStageActionResetRtc => 4,
        }
    }

    pub open spec fn spec_bits(&self) -> u8 {
        match self {
            RwdtStageAction::RwdtStageActionOff => 0u8,
            RwdtStageAction::RwdtStageActionInterrupt => 1u8,
            RwdtStageAction::RwdtStageActionResetCpu => 2u8,
            RwdtStageAction::RwdtStageActionResetSystem => 3u8,
            RwdtStageAction::RwdtStageActionResetRtc => 4u8,
        }
    }
}

/// Configuration registers of the main RTC watchdog, behind the
/// write-protect register.
#[derive(Clone, Copy, Debug, PartialEq, Eq, Structural)]
pub struct RwdtConfig {
    /// Stage action encodings.
    pub stg0: u8,
    pub stg1: u8,
    pub stg2: u8,
    pub stg3: u8,
    /// Watchdog enabled.
    pub en: bool,
    /// Flash-boot protection mode enabled.
    pub flashboot_mod_en: bool,
    /// CPU reset pulse length encoding.
    pub cpu_reset_length: u8,
    /// System reset pulse length encoding.
    pub sys_reset_length: u8,
    /// Stage-0 timeout threshold, in slow-clock ticks.
    pub stg0_hold: u32,
    /// Number of feed pulses issued.
    pub feed_count: u64,
    /// Watchdog interrupt enabled.
    pub int_ena: bool,
    /// Watchdog interrupt status.
    pub int_st: bool,
}

/// The main RTC watchdog's register block.
pub struct RwdtRegisters {
    pub protect: ProtectReg,
    pub cfg: RwdtConfig,
}

/// The watchdog register block as it comes out of reset.
pub open spec fn spec_initial_rwdt_config() -> RwdtConfig {
    RwdtConfig {
        stg0: 0u8,
        stg1: 0u8,
        stg2: 0u8,
        stg3: 0u8,
        en: false,
        flashboot_mod_en: false,
        cpu_reset_length: 0u8,
        sys_reset_length: 0u8,
        stg0_hold: 0u32,
        feed_count: 0u64,
        int_ena: false,
        int_st: false,
    }
}

impl RwdtRegisters {
    /// Whether the configuration registers currently accept writes.
    pub open spec fn unlocked(&self) -> bool {
        self.protect.unlocked(WDT_UNLOCK_KEY)
    }

    fn new() -> (r: RwdtRegisters)
        ensures
            r.protect.wkey == LOCK_KEY,
            r.protect.log() == Seq::<u32>::empty(),
            r.cfg == spec_initial_rwdt_config(),
    {
        RwdtRegisters { protect: ProtectReg::new(), cfg: initial_rwdt_config() }
    }

    /// Write the stage-0 action field; ignored while locked.
    fn modify_stg0(&mut self, v: u8)
        ensures
            final(self).protect == old(self).protect,
            final(self).cfg == if old(self).unlocked() {
                RwdtConfig { stg0: v, ..old(self).cfg }
            } else {
                old(self).cfg
            },
    {
        if self.protect.wkey == WDT_UNLOCK_KEY {
            self.cfg.stg0 = v;
        }
    }

    /// Clear the enable and flash-boot-mode bits; ignored while locked.
    fn modify_en_flashboot(&mut self, en: bool, flashboot: bool)
        ensures
            final(self).protect == old(self).protect,
            final(self).cfg == if old(self).unlocked() {
                RwdtConfig { en, flashboot_mod_en: flashboot, ..old(self).cfg }
            } else {
                old(self).cfg
            },
    {
        if self.protect.wkey == WDT_UNLOCK_KEY {
            self.cfg.en = en;
            self.cfg.flashboot_mod_en = flashboot;
        }
    }

    /// Write the stage-0 timeout threshold; ignored while locked.
    fn write_stg0_hold(&mut self, v: u32)
        ensures
            final(self).protect == old(self).protect,
            final(self).cfg == if old(self).unlocked() {
                RwdtConfig { stg0_hold: v, ..old(self).cfg }
            } else {
                old(self).cfg
            },
    {
        if self.protect.wkey == WDT_UNLOCK_KEY {
            self.cfg.stg0_hold = v;
        }
    }

    /// Write every stage action, the reset pulse lengths and the enable
    /// bit in one register transaction; ignored while locked.
    #[allow(clippy::too_many_arguments)]
    fn write_config0(
        &mut self,
        stg0: u8,
        stg1: u8,
        stg2: u8,
        stg3: u8,
        cpu_reset_length: u8,
        sys_reset_length: u8,
        en: bool,
    )
        ensures
            final(self).protect == old(self).protect,
            final(self).cfg == if old(self).unlocked() {
                RwdtConfig {
                    stg0,
                    stg1,
                    stg2,
                    stg3,
                    cpu_reset_length,
                    sys_reset_length,
                    en,
                    ..old(self).cfg
                }
            } else {
                old(self).cfg
            },
    {
        if self.protect.wkey == WDT_UNLOCK_KEY {
            self.cfg.stg0 = stg0;
            self.cfg.stg1 = stg1;
            self.cfg.stg2 = stg2;
            self.cfg.stg3 = stg3;
            self.cfg.cpu_reset_length = cpu_reset_length;
            self.cfg.sys_reset_length = sys_reset_length;
            self.cfg.en = en;
        }
    }

    /// Issue a feed pulse, restarting the countdown; ignored while locked.
    fn write_feed(&mut self)
        ensures
            final(self).protect == old(self).protect,
            final(self).cfg == if old(self).unlocked() {
                RwdtConfig {
                    feed_count: if old(self).cfg.feed_count == u64::MAX {
                        0u64
                    } else {
                        (old(self).cfg.feed_count + 1) as u64
                    },
                    ..old(self).cfg
                }
            } else {
                old(self).cfg
            },
    {
        if self.protect.wkey == WDT_UNLOCK_KEY {
            if self.cfg.feed_count == u64::MAX {
                self.cfg.feed_count = 0;
            } else {
                self.cfg.feed_count = self.cfg.feed_count + 1;
            }
        }
    }

    /// Enable or mask the watchdog interrupt (not a protected register).
    fn set_int_ena(&mut self, ena: bool)
        ensures
            final(self).protect == old(self).protect,
            final(self).cfg == (RwdtConfig { int_ena: ena, ..old(self).cfg }),
    {
        self.cfg.int_ena = ena;
    }

    /// Clear the watchdog interrupt status (not a protected register).
    fn clear_int(&mut self)
        ensures
            final(self).protect == old(self).protect,
            final(self).cfg == (RwdtConfig { int_st: false, ..old(self).cfg }),
    {
        self.cfg.int_st = false;
    }
}

fn initial_rwdt_config() -> (r: RwdtConfig)
    ensures
        r == spec_initial_rwdt_config(),
{
    RwdtConfig {
        stg0: 0,
        stg1: 0,
        stg2: 0,
        stg3: 0,
        en: false,
        flashboot_mod_en: false,
        cpu_reset_length: 0,
        sys_reset_length: 0,
        stg0_hold: 0,
        feed_count: 0,
        int_ena: false,
        int_st: false,
    }
}

/// Raw stage-0 threshold: milliseconds times slow-clock cycles per
/// millisecond, truncated to the 32-bit register width.
pub open spec fn spec_rwdt_timeout_raw(millis: u64, cycles_per_ms: u16) -> u32 {
    ((millis * cycles_per_ms) % 0x1_0000_0000) as u32
}

/// The value loaded into the stage-0 hold register: the later variants
/// shift the raw threshold right by one more than the calibration
/// multiplier burned into their fuses.
pub open spec fn spec_rwdt_hold(chip: ChipVariant, raw: u32, multiplier: u8) -> u32 {
    if chip is Esp32 {
        raw
    } else {
        raw >> ((1 + multiplier) as u32)
    }
}

/// Main RTC watchdog timer driver.
pub struct Rwdt {
    /// Which chip variant's watchdog this is.
    pub chip: ChipVariant,
    /// Fuse-derived threshold shift used by the later variants.
    pub rwdt_multiplier: u8,
    /// Driver-side stage action configuration, written to the hardware on
    /// `start`.
    pub stg0_action: RwdtStageAction,
    pub stg1_action: RwdtStageAction,
    pub stg2_action: RwdtStageAction,
    pub stg3_action: RwdtStageAction,
    /// The owned register block.
    pub regs: RwdtRegisters,
}

impl Rwdt {
    /// A watchdog driver over a freshly reset register block. Stage 0
    /// defaults to resetting the RTC subsystem; the other stages are off.
    pub fn new(chip: ChipVariant, rwdt_multiplier: u8) -> (r: Rwdt)
        ensures
            r.chip == chip,
            r.rwdt_multiplier == rwdt_multiplier,
            r.stg0_action is RwdtStageActionResetRtc,
            r.stg1_action is RwdtStageActionOff,
            r.stg2_action is RwdtStageActionOff,
            r.stg3_action is RwdtStageActionOff,
            r.regs.protect.wkey == LOCK_KEY,
            r.regs.protect.log() == Seq::<u32>::empty(),
            r.regs.cfg == spec_initial_rwdt_config(),
    {
        Rwdt {
            chip,
            rwdt_multiplier,
            stg0_action: RwdtStageAction::RwdtStageActionResetRtc,
            stg1_action: RwdtStageAction::RwdtStageActionOff,
            stg2_action: RwdtStageAction::RwdtStageActionOff,
            stg3_action: RwdtStageAction::RwdtStageActionOff,
            regs: RwdtRegisters::new(),
        }
    }

    /// Enable or disable write protection for the watchdog registers.
    fn set_write_protection(&mut self, enable: bool)
        ensures
            *final(self) == (Rwdt { regs: final(self).regs, ..*old(self) }),
            final(self).regs.cfg == old(self).regs.cfg,
            final(self).regs.protect.wkey == if enable {
                LOCK_KEY
            } else {
                WDT_UNLOCK_KEY
            },
            final(self).regs.protect.log() == old(self).regs.protect.log().push(
                if enable {
                    LOCK_KEY
                } else {
                    WDT_UNLOCK_KEY
                },
            ),
    {
        let wkey: u32 = if enable {
            LOCK_KEY
        } else {
            WDT_UNLOCK_KEY
        };
        self.regs.protect.write(wkey);
    }

    /// Configure stage 0 to raise an interrupt on expiry and unmask the
    /// watchdog interrupt.
    pub fn listen(&mut self)
        ensures
            final(self).stg0_action is RwdtStageActionInterrupt,
            final(self).regs.cfg == (RwdtConfig {
                stg0: 1u8,
                int_ena: true,
                ..old(self).regs.cfg
            }),
            final(self).regs.protect.wkey == LOCK_KEY,
            final(self).regs.protect.log() == old(self).regs.protect.log() + seq![
                WDT_UNLOCK_KEY,
                LOCK_KEY,
            ],
            final(self).chip == old(self).chip,
            final(self).rwdt_multiplier == old(self).rwdt_multiplier,
            final(self).stg1_action == old(self).stg1_action,
            final(self).stg2_action == old(self).stg2_action,
            final(self).stg3_action == old(self).stg3_action,
    {
        self.stg0_action = RwdtStageAction::RwdtStageActionInterrupt;
        let bits = self.stg0_action.bits();

        self.set_write_protection(false);
        self.regs.modify_stg0(bits);
        self.regs.set_int_ena(true);
        self.set_write_protection(true);
    }

    /// Configure stage 0 to reset the RTC subsystem on expiry and mask the
    /// watchdog interrupt. `listen` and `unlisten` are the two mutually
    /// exclusive configurations of the same stage.
    pub fn unlisten(&mut self)
        ensures
            final(self).stg0_action is RwdtStageActionResetRtc,
            final(self).regs.cfg == (RwdtConfig {
                stg0: 4u8,
                int_ena: false,
                ..old(self).regs.cfg
            }),
            final(self).regs.protect.wkey == LOCK_KEY,
            final(self).regs.protect.log() == old(self).regs.protect.log() + seq![
                WDT_UNLOCK_KEY,
                LOCK_KEY,
            ],
            final(self).chip == old(self).chip,
            final(self).rwdt_multiplier == old(self).rwdt_multiplier,
            final(self).stg1_action == old(self).stg1_action,
            final(self).stg2_action == old(self).stg2_action,
            final(self).stg3_action == old(self).stg3_action,
    {
        self.stg0_action = RwdtStageAction::RwdtStageActionResetRtc;
        let bits = self.stg0_action.bits();

        self.set_write_protection(false);
        self.regs.modify_stg0(bits);
        self.regs.set_int_ena(false);
        self.set_write_protection(true);
    }

    /// Clear the watchdog interrupt status flag.
    pub fn clear_interrupt(&mut self)
        ensures
            final(self).regs.cfg == (RwdtConfig { int_st: false, ..old(self).regs.cfg }),
            final(self).regs.protect.wkey == LOCK_KEY,
            final(self).regs.protect.log() == old(self).regs.protect.log() + seq![
                WDT_UNLOCK_KEY,
                LOCK_KEY,
            ],
            *final(self) == (Rwdt { regs: final(self).regs, ..*old(self) }),
    {
        self.set_write_protection(false);
        self.regs.clear_int();
        self.set_write_protection(true);
    }

    /// Whether the watchdog interrupt status flag is raised.
    pub fn is_interrupt_set(&self) -> (r: bool)
        ensures
            r == self.regs.cfg.int_st,
    {
        self.regs.cfg.int_st
    }

    /// Stop the watchdog: clear the enable and flash-boot-mode bits.
    pub fn disable(&mut self)
        ensures
            final(self).regs.cfg == (RwdtConfig {
                en: false,
                flashboot_mod_en: false,
                ..old(self).regs.cfg
            }),
            final(self).regs.protect.wkey == LOCK_KEY,
            final(self).regs.protect.log() == old(self).regs.protect.log() + seq![
                WDT_UNLOCK_KEY,
                LOCK_KEY,
            ],
            *final(self) == (Rwdt { regs: final(self).regs, ..*old(self) }),
    {
        self.set_write_protection(false);
        self.regs.modify_en_flashboot(false, false);
        self.set_write_protection(true);
    }

    /// Arm the watchdog: convert the period to slow-clock ticks with a
    /// fresh calibration pass, write the stage-0 threshold and all four
    /// stage actions together with the fixed reset pulse lengths, and set
    /// the enable bit.
    pub fn start(&mut self, period: MicrosecondDuration, clock: &mut RtcClock)
        requires
            period.0 / 1000 <= 0x1_0000_0000_0000u64,
            old(self).rwdt_multiplier <= 30,
        ensures
            final(self).regs.cfg == (RwdtConfig {
                stg0: old(self).stg0_action.spec_bits(),
                stg1: old(self).stg1_action.spec_bits(),
                stg2: old(self).stg2_action.spec_bits(),
                stg3: old(self).stg3_action.spec_bits(),
                cpu_reset_length: 7u8,
                sys_reset_length: 7u8,
                en: true,
                stg0_hold: spec_rwdt_hold(
                    old(self).chip,
                    spec_rwdt_timeout_raw(
                        period.0 / 1000,
                        spec_cycles_to_1ms_value(
                            spec_cal_period(
                                spec_cal_raw(*old(clock)),
                                spec_get_xtal_freq(old(clock).xtal_freq_reg, old(clock).chip)
                                    .spec_mhz(),
                                1024,
                            ),
                        ),
                    ),
                    old(self).rwdt_multiplier,
                ),
                ..old(self).regs.cfg
            }),
            final(self).regs.protect.wkey == LOCK_KEY,
            final(self).regs.protect.log() == old(self).regs.protect.log() + seq![
                WDT_UNLOCK_KEY,
                LOCK_KEY,
            ],
            *final(self) == (Rwdt { regs: final(self).regs, ..*old(self) }),
            clock_config_unchanged(*old(clock), *final(clock)),
    {
        let millis = period.to_millis();
        let cycles_per_ms = clock.cycles_to_1ms();
        proof {
            assert(millis * (cycles_per_ms as u64) <= 0x1_0000_0000_0000u64 * 0xFFFF)
                by (nonlinear_arith)
                requires
                    millis <= 0x1_0000_0000_0000u64,
                    cycles_per_ms <= 0xFFFFu64,
            ;
        }
        let timeout_raw_wide = millis * (cycles_per_ms as u64);
        let masked = timeout_raw_wide & (u32::MAX as u64);
        proof {
            assert(masked == timeout_raw_wide % 0x1_0000_0000) by (bit_vector)
                requires
                    masked == timeout_raw_wide & 0xFFFF_FFFFu64,
            ;
        }
        let timeout_raw = masked as u32;

        self.set_write_protection(false);

        let hold: u32 = if matches!(self.chip, ChipVariant::Esp32) {
            timeout_raw
        } else {
            timeout_raw >> (1 + self.rwdt_multiplier as u32)
        };
        self.regs.write_stg0_hold(hold);

        let stg0 = self.stg0_action.bits();
        let stg1 = self.stg1_action.bits();
        let stg2 = self.stg2_action.bits();
        let stg3 = self.stg3_action.bits();
        self.regs.write_config0(stg0, stg1, stg2, stg3, 7, 7, true);

        self.set_write_protection(true);
    }

    /// Feed the watchdog: restart the countdown without altering any stage
    /// configuration.
    pub fn feed(&mut self)
        ensures
            final(self).regs.cfg == (RwdtConfig {
                feed_count: if old(self).regs.cfg.feed_count == u64::MAX {
                    0u64
                } else {
                    (old(self).regs.cfg.feed_count + 1) as u64
                },
                ..old(self).regs.cfg
            }),
            final(self).regs.protect.wkey == LOCK_KEY,
            final(self).regs.protect.log() == old(self).regs.protect.log() + seq![
                WDT_UNLOCK_KEY,
                LOCK_KEY,
            ],
            *final(self) == (Rwdt { regs: final(self).regs, ..*old(self) }),
    {
        self.set_write_protection(false);
        self.regs.write_feed();
        self.set_write_protection(true);
    }

    /// Modeled hardware effect: stage 0 expires. If the stage is
    /// configured to raise an interrupt, the status flag goes up; any
    /// other configured action is a reset and leaves this model.
    pub fn hw_expire_stage0(&mut self)
        ensures
            final(self).regs.cfg == (RwdtConfig {
                int_st: old(self).regs.cfg.int_st || old(self).regs.cfg.stg0 == 1,
                ..old(self).regs.cfg
            }),
            final(self).regs.protect == old(self).regs.protect,
            *final(self) == (Rwdt { regs: final(self).regs, ..*old(self) }),
    {
        if self.regs.cfg.stg0 == 1 {
            self.regs.cfg.int_st = true;
        }
    }
}

impl Default for Rwdt {
    /// The watchdog driver for the earliest variant with no fuse-derived
    /// multiplier, over a freshly reset register block.
    fn default() -> (r: Rwdt)
        ensures
            r.chip is Esp32,
            r.rwdt_multiplier == 0,
            r.stg0_action is RwdtStageActionResetRtc,
            r.stg1_action is RwdtStageActionOff,
            r.stg2_action is RwdtStageActionOff,
            r.stg3_action is RwdtStageActionOff,
            r.regs.protect.wkey == LOCK_KEY,
            r.regs.protect.log() == Seq::<u32>::empty(),
            r.regs.cfg == spec_initial_rwdt_config(),
    {
        Rwdt::new(ChipVariant::Esp32, 0)
    }
}

/// Super watchdog registers.
pub struct SwdRegisters {
    pub protect: ProtectReg,
    /// Hardware auto-feed: the watchdog perpetually re-arms itself.
    pub auto_feed_en: bool,
}

/// Super watchdog driver (present only on the later chip variants).
pub struct Swd {
    pub regs: SwdRegisters,
}

impl Swd {
    /// A super-watchdog driver over a freshly reset register block.
    pub fn new() -> (r: Swd)
        ensures
            r.regs.protect.wkey == LOCK_KEY,
            r.regs.protect.log() == Seq::<u32>::empty(),
            r.regs.auto_feed_en == false,
    {
        Swd { regs: SwdRegisters { protect: ProtectReg::new(), auto_feed_en: false } }
    }

    /// Enable or disable write protection for the super watchdog
    /// registers. The unlock key differs from the main watchdog's and the
    /// two must never be interchanged.
    fn set_write_protection(&mut self, enable: bool)
        ensures
            final(self).regs.auto_feed_en == old(self).regs.auto_feed_en,
            final(self).regs.protect.wkey == if enable {
                LOCK_KEY
            } else {
                SWD_UNLOCK_KEY
            },
            final(self).regs.protect.log() == old(self).regs.protect.log().push(
                if enable {
                    LOCK_KEY
                } else {
                    SWD_UNLOCK_KEY
                },
            ),
    {
        let wkey: u32 = if enable {
            LOCK_KEY
        } else {
            SWD_UNLOCK_KEY
        };
        self.regs.protect.write(wkey);
    }

    /// Neutralize the super watchdog by switching on hardware auto-feed,
    /// so it perpetually re-arms itself without software attention.
    pub fn disable(&mut self)
        ensures
            final(self).regs.auto_feed_en == true,
            final(self).regs.protect.wkey == LOCK_KEY,
            final(self).regs.protect.log() == old(self).regs.protect.log() + seq![
                SWD_UNLOCK_KEY,
                LOCK_KEY,
            ],
    {
        self.set_write_protection(false);
        if self.regs.protect.wkey == SWD_UNLOCK_KEY {
            self.regs.auto_feed_en = true;
        }
        self.set_write_protection(true);
    }
}

/// Top-level RTC driver: owns the clock block, the main watchdog and, on
/// the variants that have one, the super watchdog.
pub struct Rtc {
    pub clock: RtcClock,
    pub rwdt: Rwdt,
    pub swd: Option<Swd>,
}

impl Rtc {
    /// Acquire the RTC peripheral: the clock block, the main watchdog and
    /// (on the variants that have it) the super watchdog, all in their
    /// power-on state. `rwdt_multiplier` is the fuse-derived threshold
    /// shift of the later variants; the earliest variant ignores it.
    pub fn new(chip: ChipVariant, rwdt_multiplier: u8) -> (r: Rtc)
        ensures
            r.clock == spec_initial_rtc_clock(chip),
            r.rwdt.chip == chip,
            r.rwdt.rwdt_multiplier == rwdt_multiplier,
            r.rwdt.stg0_action is RwdtStageActionResetRtc,
            r.rwdt.stg1_action is RwdtStageActionOff,
            r.rwdt.stg2_action is RwdtStageActionOff,
            r.rwdt.stg3_action is RwdtStageActionOff,
            r.rwdt.regs.protect.wkey == LOCK_KEY,
            r.rwdt.regs.protect.log() == Seq::<u32>::empty(),
            r.rwdt.regs.cfg == spec_initial_rwdt_config(),
            r.swd is Some <==> chip.spec_has_super_watchdog(),
            r.swd is Some ==> {
                &&& r.swd->0.regs.protect.wkey == LOCK_KEY
                &&& r.swd->0.regs.protect.log() == Seq::<u32>::empty()
                &&& r.swd->0.regs.auto_feed_en == false
            },
    {
        let swd = if chip.has_super_watchdog() {
            Some(Swd::new())
        } else {
            None
        };
        Rtc { clock: RtcClock::new(chip), rwdt: Rwdt::new(chip, rwdt_multiplier), swd }
    }

    /// Estimate the main crystal frequency in whole megahertz.
    pub fn estimate_xtal_frequency(&mut self) -> (r: u32)
        ensures
            r == crate::rtc_clock::spec_est_xtal_mhz(old(self).clock),
            final(self).clock.ck8m_enabled == old(self).clock.ck8m_enabled,
            final(self).clock.ck8m_d256_enabled == old(self).clock.ck8m_d256_enabled,
            final(self).rwdt == old(self).rwdt,
            final(self).swd == old(self).swd,
    {
        self.clock.estimate_xtal_frequency()
    }
}

} // verus!
