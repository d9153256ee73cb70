//! Timing subsystem of a microcontroller hardware-abstraction layer.
//!
//! The crate models the RTC clock-calibration engine, the watchdog timers
//! with their register write-protection protocol, and the generic
//! counter-timer shared across timer-group instances. Every peripheral
//! register block is modelled as an owned value, so one driver instance has
//! exclusive access to its hardware and every register transaction is
//! visible in the driver's contracts.

mod chip;
mod clock;
mod protect;
mod rtc_clock;
mod rtc_cntl;
mod timer;
mod units;

pub use chip::ChipVariant;
pub use protect::{
    lemma_bracketed_empty, lemma_bracketed_extend, lemma_bracketed_pairs, well_bracketed,
    ProtectReg, LOCK_KEY, SWD_UNLOCK_KEY, WDT_UNLOCK_KEY,
};
pub use clock::{RtcCalSel, RtcFastClock, RtcSlowClock, XtalClock};
pub use rtc_clock::{resolve_cal_target, CalResponse, RtcClock, CAL_FRACT, XTAL_FREQ_EST_CYCLES};
pub use rtc_cntl::{Rtc, Rwdt, RwdtConfig, RwdtRegisters, RwdtStageAction, Swd, SwdRegisters};
pub use timer::{
    lemma_divider_mapping, spec_alarm, spec_divider, spec_tick, timeout_to_ticks, Error, Instance,
    TgWdtConfig, TgWdtRegisters, Timer, Timer0, Timer1, TimerGroup, TimerGroupInstance,
    TimerRegisters, Wdt, WouldBlock, COUNTER_MASK, COUNTER_MOD, TIMG0, TIMG1,
};
pub use units::{Hertz, MicrosecondDuration};
