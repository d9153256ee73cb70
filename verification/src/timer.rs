//! General-purpose timers: the generic counter-timer driver, the timer
//! units it drives, and the per-timer-group watchdog.
//!
//! A timer group owns up to two physically distinct counter units. Each
//! unit is a free-running 54-bit counter with an alarm comparator and a
//! prescale divider, modelled as an owned register file; one generic
//! driver implementation works over any unit through the [`Instance`]
//! trait, with no per-unit logic duplicated.

use vstd::prelude::*;

use crate::chip::ChipVariant;
use crate::units::{Hertz, MicrosecondDuration};

verus! {

/// Counter-timer misuse errors.
#[derive(Debug)]
pub enum Error {
    TimerActive,
    TimerInactive,
    AlarmInactive,
}

/// The timer has not yet reached its alarm value: polling again later may
/// succeed.
#[derive(Debug)]
pub struct WouldBlock;

/// The counter is 54 bits wide; alarm and load values are masked to this.
pub const COUNTER_MASK: u64 = 0x3F_FFFF_FFFF_FFFF;

/// One step of the counter range: two to the 54th power.
pub const COUNTER_MOD: u64 = 0x40_0000_0000_0000;

/// The register file of one hardware counter unit.
#[derive(Clone, Copy, Debug, PartialEq, Eq, Structural)]
pub struct TimerRegisters {
    /// Which chip variant's unit this is (decides the level-interrupt
    /// quirk of the earlier variants).
    pub chip: ChipVariant,
    /// Prescale divider field.
    pub divider: u16,
    /// Counter running.
    pub en: bool,
    /// Counter counts upward.
    pub increase: bool,
    /// Counter reloads from the load registers on alarm.
    pub autoreload: bool,
    /// Alarm comparator armed.
    pub alarm_en: bool,
    /// Level-style interrupt generation enabled.
    pub level_int_en: bool,
    /// Unit interrupt enabled.
    pub int_ena: bool,
    /// Raw interrupt flag, raised by an alarm match until cleared.
    pub int_raw: bool,
    /// The free-running counter.
    pub counter: u64,
    /// Low half of the reload value.
    pub load_lo: u32,
    /// High half of the reload value.
    pub load_hi: u32,
    /// Low half of the alarm value.
    pub alarm_lo: u32,
    /// High half of the alarm value.
    pub alarm_hi: u32,
}

/// The alarm comparator value held in the two alarm registers.
pub open spec fn spec_alarm(r: TimerRegisters) -> u64 {
    (r.alarm_hi * 0x1_0000_0000 + r.alarm_lo) as u64
}

/// The reload value held in the two load registers.
pub open spec fn spec_load(r: TimerRegisters) -> u64 {
    (r.load_hi * 0x1_0000_0000 + r.load_lo) as u64
}

/// The divisor the prescaler applies for a given register value: zero
/// divides by 65536, one and two both divide by two (a hardware quirk,
/// replicated exactly), and any other value divides by itself.
pub open spec fn spec_divider(bits: u16) -> u32 {
    if bits == 0 {
        65536u32
    } else if bits == 1 || bits == 2 {
        2u32
    } else {
        bits as u32
    }
}

/// The prescaler mapping is total and exact: every register value has
/// exactly one divisor, given by the three cases above.
pub proof fn lemma_divider_mapping(bits: u16)
    ensures
        bits == 0 ==> spec_divider(bits) == 65536,
        bits == 1 || bits == 2 ==> spec_divider(bits) == 2,
        bits > 2 ==> spec_divider(bits) == bits as u32,
{
}

/// One edge of the unit's prescaled input clock: a running counter steps
/// by one (wrapping over its 54 bits); when the armed alarm value is hit
/// the interrupt flag is raised, the alarm disarms itself, and with
/// auto-reload the counter restarts from the load registers.
pub open spec fn spec_tick(r: TimerRegisters) -> TimerRegisters {
    if !r.en {
        r
    } else {
        let base = r.counter % COUNTER_MOD;
        let c = if r.increase {
            if base == COUNTER_MASK {
                0u64
            } else {
                (base + 1) as u64
            }
        } else {
            if base == 0 {
                COUNTER_MASK
            } else {
                (base - 1) as u64
            }
        };
        if r.alarm_en && c == spec_alarm(r) {
            TimerRegisters {
                counter: if r.autoreload {
                    (spec_load(r) % COUNTER_MOD) as u64
                } else {
                    c
                },
                alarm_en: false,
                int_raw: true,
                ..r
            }
        } else {
            TimerRegisters { counter: c, ..r }
        }
    }
}

/// A counter unit's register file as it comes out of reset.
pub open spec fn spec_initial_timer_registers(chip: ChipVariant) -> TimerRegisters {
    TimerRegisters {
        chip,
        divider: 1u16,
        en: false,
        increase: true,
        autoreload: false,
        alarm_en: false,
        level_int_en: false,
        int_ena: false,
        int_raw: false,
        counter: 0u64,
        load_lo: 0u32,
        load_hi: 0u32,
        alarm_lo: 0u32,
        alarm_hi: 0u32,
    }
}

fn initial_timer_registers(chip: ChipVariant) -> (r: TimerRegisters)
    ensures
        r == spec_initial_timer_registers(chip),
{
    TimerRegisters {
        chip,
        divider: 1,
        en: false,
        increase: true,
        autoreload: false,
        alarm_en: false,
        level_int_en: false,
        int_ena: false,
        int_raw: false,
        counter: 0,
        load_lo: 0,
        load_hi: 0,
        alarm_lo: 0,
        alarm_hi: 0,
    }
}

/// Split an alarm value over the two 32-bit alarm registers, masking it
/// to the comparator's 54 bits.
fn load_alarm_registers(r: &mut TimerRegisters, value: u64)
    ensures
        spec_alarm(*final(r)) == value % COUNTER_MOD,
        *final(r) == (TimerRegisters {
            alarm_lo: final(r).alarm_lo,
            alarm_hi: final(r).alarm_hi,
            ..*old(r)
        }),
{
    let masked = value & COUNTER_MASK;
    let high = (masked >> 32u64) as u32;
    let low = (masked & 0xFFFF_FFFF) as u32;
    proof {
        assert((masked >> 32u64) * 0x1_0000_0000 + (masked & 0xFFFF_FFFF) == value
            % 0x40_0000_0000_0000 && (masked >> 32u64) <= 0x3F_FFFFu64 && (masked & 0xFFFF_FFFF)
            <= 0xFFFF_FFFFu64) by (bit_vector)
            requires
                masked == value & 0x3F_FFFF_FFFF_FFFFu64,
        ;
    }
    r.alarm_lo = low;
    r.alarm_hi = high;
}

/// Advance a unit's register file by one prescaled clock edge; the
/// modelled stand-in for the passage of real time.
fn tick_registers(r: &mut TimerRegisters)
    ensures
        *final(r) == spec_tick(*old(r)),
{
    if !r.en {
        return ;
    }
    let base = r.counter % COUNTER_MOD;
    let c: u64 = if r.increase {
        if base == COUNTER_MASK {
            0
        } else {
            base + 1
        }
    } else {
        if base == 0 {
            COUNTER_MASK
        } else {
            base - 1
        }
    };
    let alarm_lo64 = r.alarm_lo as u64;
    let alarm_hi64 = r.alarm_hi as u64;
    let alarm = (alarm_hi64 << 32u64) | alarm_lo64;
    proof {
        assert((alarm_hi64 << 32u64) | alarm_lo64 == alarm_hi64 * 0x1_0000_0000 + alarm_lo64)
            by (bit_vector)
            requires
                alarm_hi64 <= 0xFFFF_FFFFu64,
                alarm_lo64 <= 0xFFFF_FFFFu64,
        ;
    }
    if r.alarm_en && c == alarm {
        r.int_raw = true;
        r.alarm_en = false;
        if r.autoreload {
            let load_lo64 = r.load_lo as u64;
            let load_hi64 = r.load_hi as u64;
            let load = ((load_hi64 << 32u64) | load_lo64) % COUNTER_MOD;
            proof {
                assert((load_hi64 << 32u64) | load_lo64 == load_hi64 * 0x1_0000_0000 + load_lo64)
                    by (bit_vector)
                    requires
                        load_hi64 <= 0xFFFF_FFFFu64,
                        load_lo64 <= 0xFFFF_FFFFu64,
                ;
            }
            r.counter = load;
        } else {
            r.counter = c;
        }
    } else {
        r.counter = c;
    }
}

/// One hardware counter unit, as the generic timer driver sees it.
///
/// Each implementation owns the register file of one physically distinct
/// unit; every contract is stated over that file, so the one generic
/// driver is verified once for all units.
pub trait Instance {
    /// The unit's register file.
    spec fn spec_regs(&self) -> TimerRegisters;

    /// Zero the load registers and reload the counter from them.
    fn reset_counter(&mut self)
        ensures
            final(self).spec_regs() == (TimerRegisters {
                counter: 0u64,
                load_lo: 0u32,
                load_hi: 0u32,
                ..old(self).spec_regs()
            }),
    ;

    /// Start or stop the counter.
    fn set_counter_active(&mut self, state: bool)
        ensures
            final(self).spec_regs() == (TimerRegisters { en: state, ..old(self).spec_regs() }),
    ;

    /// Whether the counter is running.
    fn is_counter_active(&self) -> (r: bool)
        ensures
            r == self.spec_regs().en,
    ;

    /// Choose the counting direction.
    fn set_counter_decrementing(&mut self, decrementing: bool)
        ensures
            final(self).spec_regs() == (TimerRegisters {
                increase: !decrementing,
                ..old(self).spec_regs()
            }),
    ;

    /// Choose whether the counter reloads on alarm.
    fn set_auto_reload(&mut self, auto_reload: bool)
        ensures
            final(self).spec_regs() == (TimerRegisters {
                autoreload: auto_reload,
                ..old(self).spec_regs()
            }),
    ;

    /// Arm or disarm the alarm comparator.
    fn set_alarm_active(&mut self, state: bool)
        ensures
            final(self).spec_regs() == (TimerRegisters {
                alarm_en: state,
                ..old(self).spec_regs()
            }),
    ;

    /// Whether the alarm comparator is armed.
    fn is_alarm_active(&self) -> (r: bool)
        ensures
            r == self.spec_regs().alarm_en,
    ;

    /// Load the alarm comparator, masked to its 54 bits.
    fn load_alarm_value(&mut self, value: u64)
        ensures
            spec_alarm(final(self).spec_regs()) == value % COUNTER_MOD,
            final(self).spec_regs() == (TimerRegisters {
                alarm_lo: final(self).spec_regs().alarm_lo,
                alarm_hi: final(self).spec_regs().alarm_hi,
                ..old(self).spec_regs()
            }),
    ;

    /// Enable the unit interrupt (the earlier variants also select
    /// level-style generation).
    fn listen(&mut self)
        ensures
            final(self).spec_regs() == (TimerRegisters {
                int_ena: true,
                level_int_en: if old(self).spec_regs().chip is Esp32 || old(
                    self,
                ).spec_regs().chip is Esp32s2 {
                    true
                } else {
                    old(self).spec_regs().level_int_en
                },
                ..old(self).spec_regs()
            }),
    ;

    /// Mask the unit interrupt.
    fn unlisten(&mut self)
        ensures
            final(self).spec_regs() == (TimerRegisters {
                int_ena: false,
                ..old(self).spec_regs()
            }),
    ;

    /// Clear the raw interrupt flag.
    fn clear_interrupt(&mut self)
        ensures
            final(self).spec_regs() == (TimerRegisters {
                int_raw: false,
                ..old(self).spec_regs()
            }),
    ;

    /// Read the current counter value.
    fn read_raw(&self) -> (r: u64)
        ensures
            r == self.spec_regs().counter,
    ;

    /// The divisor the prescaler currently applies.
    fn divider(&self) -> (r: u32)
        ensures
            r == spec_divider(self.spec_regs().divider),
    ;

    /// Whether the raw interrupt flag is raised.
    fn is_interrupt_set(&self) -> (r: bool)
        ensures
            r == self.spec_regs().int_raw,
    ;

    /// Modeled hardware effect: one prescaled input clock edge.
    fn hw_tick(&mut self)
        ensures
            final(self).spec_regs() == spec_tick(old(self).spec_regs()),
    ;
}

/// Marker for one timer-group peripheral instance.
pub trait TimerGroupInstance {

}

/// The first timer-group peripheral.
pub struct TIMG0;

impl TimerGroupInstance for TIMG0 {

}

/// The second timer-group peripheral.
pub struct TIMG1;

impl TimerGroupInstance for TIMG1 {

}

/// The first counter unit of a timer group.
pub struct Timer0<TG> {
    /// The unit's owned register file.
    pub regs: TimerRegisters,
    pub _marker: core::marker::PhantomData<TG>,
}

impl<TG> Timer0<TG> {
    /// Take the unit with its registers in their reset state.
    pub fn new(chip: ChipVariant) -> (r: Timer0<TG>)
        ensures
            r.regs == spec_initial_timer_registers(chip),
    {
        Timer0 { regs: initial_timer_registers(chip), _marker: core::marker::PhantomData }
    }
}

impl<TG: TimerGroupInstance> Instance for Timer0<TG> {
    open spec fn spec_regs(&self) -> TimerRegisters {
        self.regs
    }

    fn reset_counter(&mut self) {
        self.regs.load_lo = 0;
        self.regs.load_hi = 0;
        self.regs.counter = 0;
    }

    fn set_counter_active(&mut self, state: bool) {
        self.regs.en = state;
    }

    fn is_counter_active(&self) -> bool {
        self.regs.en
    }

    fn set_counter_decrementing(&mut self, decrementing: bool) {
        self.regs.increase = !decrementing;
    }

    fn set_auto_reload(&mut self, auto_reload: bool) {
        self.regs.autoreload = auto_reload;
    }

    fn set_alarm_active(&mut self, state: bool) {
        self.regs.alarm_en = state;
    }

    fn is_alarm_active(&self) -> bool {
        self.regs.alarm_en
    }

    fn load_alarm_value(&mut self, value: u64) {
        load_alarm_registers(&mut self.regs, value);
    }

    fn listen(&mut self) {
        if matches!(self.regs.chip, ChipVariant::Esp32 | ChipVariant::Esp32s2) {
            self.regs.level_int_en = true;
        }
        self.regs.int_ena = true;
    }

    fn unlisten(&mut self) {
        self.regs.int_ena = false;
    }

    fn clear_interrupt(&mut self) {
        self.regs.int_raw = false;
    }

    fn read_raw(&self) -> u64 {
        self.regs.counter
    }

    fn divider(&self) -> u32 {
        match self.regs.divider {
            0 => 65536,
            1 | 2 => 2,
            n => n as u32,
        }
    }

    fn is_interrupt_set(&self) -> bool {
        self.regs.int_raw
    }

    fn hw_tick(&mut self) {
        tick_registers(&mut self.regs);
    }
}

/// The second counter unit of a timer group (absent on the variant with
/// single-unit groups).
pub struct Timer1<TG> {
    /// The unit's owned register file.
    pub regs: TimerRegisters,
    pub _marker: core::marker::PhantomData<TG>,
}

impl<TG> Timer1<TG> {
    /// Take the unit with its registers in their reset state.
    pub fn new(chip: ChipVariant) -> (r: Timer1<TG>)
        ensures
            r.regs == spec_initial_timer_registers(chip),
    {
        Timer1 { regs: initial_timer_registers(chip), _marker: core::marker::PhantomData }
    }
}

impl<TG: TimerGroupInstance> Instance for Timer1<TG> {
    open spec fn spec_regs(&self) -> TimerRegisters {
        self.regs
    }

    fn reset_counter(&mut self) {
        self.regs.load_lo = 0;
        self.regs.load_hi = 0;
        self.regs.counter = 0;
    }

    fn set_counter_active(&mut self, state: bool) {
        self.regs.en = state;
    }

    fn is_counter_active(&self) -> bool {
        self.regs.en
    }

    fn set_counter_decrementing(&mut self, decrementing: bool) {
        self.regs.increase = !decrementing;
    }

    fn set_auto_reload(&mut self, auto_reload: bool) {
        self.regs.autoreload = auto_reload;
    }

    fn set_alarm_active(&mut self, state: bool) {
        self.regs.alarm_en = state;
    }

    fn is_alarm_active(&self) -> bool {
        self.regs.alarm_en
    }

    fn load_alarm_value(&mut self, value: u64) {
        load_alarm_registers(&mut self.regs, value);
    }

    fn listen(&mut self) {
        if matches!(self.regs.chip, ChipVariant::Esp32 | ChipVariant::Esp32s2) {
            self.regs.level_int_en = true;
        }
        self.regs.int_ena = true;
    }

    fn unlisten(&mut self) {
        self.regs.int_ena = false;
    }

    fn clear_interrupt(&mut self) {
        self.regs.int_raw = false;
    }

    fn read_raw(&self) -> u64 {
        self.regs.counter
    }

    fn divider(&self) -> u32 {
        match self.regs.divider {
            0 => 65536,
            1 | 2 => 2,
            n => n as u32,
        }
    }

    fn is_interrupt_set(&self) -> bool {
        self.regs.int_raw
    }

    fn hw_tick(&mut self) {
        tick_registers(&mut self.regs);
    }
}

/// Ticks of the prescaled reference clock that make up the given
/// duration: `micros * ref_hz / divider / 1_000_000`, truncated to the
/// 64-bit register width.
pub open spec fn spec_timeout_to_ticks(micros: u64, clock_hz: u32, divider: u32) -> u64 {
    ((micros * clock_hz / (divider as int) / 1_000_000) % 0x1_0000_0000_0000_0000) as u64
}

/// Convert a timeout into ticks of the reference clock after prescaling.
pub fn timeout_to_ticks(timeout: MicrosecondDuration, clock: Hertz, divider: u32) -> (r: u64)
    requires
        divider > 0,
    ensures
        r == spec_timeout_to_ticks(timeout.0, clock.0, divider),
{
    let micros = timeout.to_micros();
    proof {
        assert((micros as u128) * (clock.0 as u128) <= 0xFFFF_FFFF_FFFF_FFFFu128
            * 0xFFFF_FFFFu128) by (nonlinear_arith)
            requires
                micros <= 0xFFFF_FFFF_FFFF_FFFFu128,
                clock.0 <= 0xFFFF_FFFFu128,
        ;
    }
    let wide = (micros as u128) * (clock.0 as u128) / (divider as u128) / 1_000_000;
    let reduced = wide % 0x1_0000_0000_0000_0000;
    reduced as u64
}

/// General-purpose timer driver, generic over which counter unit it
/// drives.
pub struct Timer<T> {
    /// The owned counter unit.
    pub timg: T,
    /// The reference clock feeding the unit's prescaler.
    pub apb_clk_freq: Hertz,
}

impl<T: Instance> Timer<T> {
    /// Create a new timer driver over the given unit, clocked from the
    /// given reference frequency.
    pub fn new(timg: T, apb_clk_freq: Hertz) -> (r: Timer<T>)
        ensures
            r.timg == timg,
            r.apb_clk_freq == apb_clk_freq,
    {
        Timer { timg, apb_clk_freq }
    }

    /// Return the raw interface to the underlying timer unit.
    pub fn free(self) -> (r: T)
        ensures
            r == self.timg,
    {
        self.timg
    }

    /// Listen for the alarm interrupt.
    pub fn listen(&mut self)
        ensures
            final(self).timg.spec_regs() == (TimerRegisters {
                int_ena: true,
                level_int_en: if old(self).timg.spec_regs().chip is Esp32 || old(
                    self,
                ).timg.spec_regs().chip is Esp32s2 {
                    true
                } else {
                    old(self).timg.spec_regs().level_int_en
                },
                ..old(self).timg.spec_regs()
            }),
            final(self).apb_clk_freq == old(self).apb_clk_freq,
    {
        self.timg.listen();
    }

    /// Stop listening for the alarm interrupt.
    pub fn unlisten(&mut self)
        ensures
            final(self).timg.spec_regs() == (TimerRegisters {
                int_ena: false,
                ..old(self).timg.spec_regs()
            }),
            final(self).apb_clk_freq == old(self).apb_clk_freq,
    {
        self.timg.unlisten();
    }

    /// Clear the alarm interrupt flag.
    pub fn clear_interrupt(&mut self)
        ensures
            final(self).timg.spec_regs() == (TimerRegisters {
                int_raw: false,
                ..old(self).timg.spec_regs()
            }),
            final(self).apb_clk_freq == old(self).apb_clk_freq,
    {
        self.timg.clear_interrupt();
    }

    /// Whether the alarm interrupt flag is raised.
    pub fn is_interrupt_set(&self) -> (r: bool)
        ensures
            r == self.timg.spec_regs().int_raw,
    {
        self.timg.is_interrupt_set()
    }

    /// Read the current counter value in timer ticks.
    pub fn read_raw(&self) -> (r: u64)
        ensures
            r == self.timg.spec_regs().counter,
    {
        self.timg.read_raw()
    }

    /// Arm the timer: stop counter and alarm, reset the counter to zero,
    /// load the timeout (converted to prescaled reference-clock ticks)
    /// into the alarm comparator, and restart counting upward with
    /// auto-reload.
    pub fn start(&mut self, timeout: MicrosecondDuration)
        ensures
            final(self).timg.spec_regs() == (TimerRegisters {
                counter: 0u64,
                load_lo: 0u32,
                load_hi: 0u32,
                en: true,
                alarm_en: true,
                autoreload: true,
                increase: true,
                alarm_lo: final(self).timg.spec_regs().alarm_lo,
                alarm_hi: final(self).timg.spec_regs().alarm_hi,
                ..old(self).timg.spec_regs()
            }),
            spec_alarm(final(self).timg.spec_regs()) == spec_timeout_to_ticks(
                timeout.0,
                old(self).apb_clk_freq.0,
                spec_divider(old(self).timg.spec_regs().divider),
            ) % COUNTER_MOD,
            final(self).apb_clk_freq == old(self).apb_clk_freq,
    {
        self.timg.set_counter_active(false);
        self.timg.set_alarm_active(false);

        self.timg.reset_counter();

        let divider = self.timg.divider();
        assert(divider >= 2);
        let ticks = timeout_to_ticks(timeout, self.apb_clk_freq, divider);
        self.timg.load_alarm_value(ticks);

        self.timg.set_counter_decrementing(false);
        self.timg.set_auto_reload(true);
        self.timg.set_counter_active(true);
        self.timg.set_alarm_active(true);
    }

    /// Non-blocking poll for the alarm. Succeeds exactly when the
    /// interrupt flag is up, clearing it and re-arming the alarm for the
    /// next period; otherwise reports that it would block. Calling this
    /// on a timer whose counter was never started is a programming error,
    /// excluded by contract rather than handled at run time.
    pub fn wait(&mut self) -> (r: Result<(), WouldBlock>)
        requires
            old(self).timg.spec_regs().en,
        ensures
            r is Ok <==> old(self).timg.spec_regs().int_raw,
            old(self).timg.spec_regs().int_raw ==> final(self).timg.spec_regs()
                == (TimerRegisters {
                int_raw: false,
                alarm_en: true,
                ..old(self).timg.spec_regs()
            }),
            !old(self).timg.spec_regs().int_raw ==> final(self).timg.spec_regs() == old(
                self,
            ).timg.spec_regs(),
            final(self).apb_clk_freq == old(self).apb_clk_freq,
    {
        if self.timg.is_interrupt_set() {
            self.timg.clear_interrupt();
            self.timg.set_alarm_active(true);

            Ok(())
        } else {
            Err(WouldBlock)
        }
    }

    /// Soft-stop the armed timer. Fails if the counter is not running or
    /// the alarm is not armed; otherwise stops the counter without
    /// resetting anything else.
    pub fn cancel(&mut self) -> (r: Result<(), Error>)
        ensures
            !old(self).timg.spec_regs().en ==> r == Err::<(), Error>(Error::TimerInactive)
                && final(self).timg.spec_regs() == old(self).timg.spec_regs(),
            old(self).timg.spec_regs().en && !old(self).timg.spec_regs().alarm_en ==> r == Err::<
                (),
                Error,
            >(Error::AlarmInactive) && final(self).timg.spec_regs() == old(self).timg.spec_regs(),
            old(self).timg.spec_regs().en && old(self).timg.spec_regs().alarm_en ==> r is Ok
                && final(self).timg.spec_regs() == (TimerRegisters {
                en: false,
                ..old(self).timg.spec_regs()
            }),
            final(self).apb_clk_freq == old(self).apb_clk_freq,
    {
        if !self.timg.is_counter_active() {
            return Err(Error::TimerInactive);
        } else if !self.timg.is_alarm_active() {
            return Err(Error::AlarmInactive);
        }
        self.timg.set_counter_active(false);

        Ok(())
    }
}

/// Configuration registers of a timer group's watchdog, behind the
/// write-protect register.
#[derive(Clone, Copy, Debug, PartialEq, Eq, Structural)]
pub struct TgWdtConfig {
    /// Watchdog enabled.
    pub en: bool,
    /// Stage action encodings.
    pub stg0: u8,
    pub stg1: u8,
    pub stg2: u8,
    pub stg3: u8,
    /// CPU reset pulse length encoding.
    pub cpu_reset_length: u8,
    /// System reset pulse length encoding.
    pub sys_reset_length: u8,
    /// Watchdog clock prescaler.
    pub clk_prescale: u16,
    /// Stage-0 timeout threshold, in prescaled ticks.
    pub stg0_hold: u32,
    /// Number of feed pulses issued.
    pub feed_count: u64,
    /// Number of configuration-update pulses issued (needed on the
    /// variant whose watchdog latches its configuration).
    pub conf_update_count: u64,
}

/// A timer-group watchdog's register block.
pub struct TgWdtRegisters {
    pub protect: crate::protect::ProtectReg,
    pub cfg: TgWdtConfig,
}

/// The watchdog register block as it comes out of reset.
pub open spec fn spec_initial_tg_wdt_config() -> TgWdtConfig {
    TgWdtConfig {
        en: false,
        stg0: 0u8,
        stg1: 0u8,
        stg2: 0u8,
        stg3: 0u8,
        cpu_reset_length: 0u8,
        sys_reset_length: 0u8,
        clk_prescale: 0u16,
        stg0_hold: 0u32,
        feed_count: 0u64,
        conf_update_count: 0u64,
    }
}

impl TgWdtRegisters {
    /// Whether the configuration registers currently accept writes.
    pub open spec fn unlocked(&self) -> bool {
        self.protect.unlocked(crate::protect::WDT_UNLOCK_KEY)
    }

    fn new() -> (r: TgWdtRegisters)
        ensures
            r.protect.wkey == crate::protect::LOCK_KEY,
            r.protect.log() == Seq::<u32>::empty(),
            r.cfg == spec_initial_tg_wdt_config(),
    {
        TgWdtRegisters {
            protect: crate::protect::ProtectReg::new(),
            cfg: TgWdtConfig {
                en: false,
                stg0: 0,
                stg1: 0,
                stg2: 0,
                stg3: 0,
                cpu_reset_length: 0,
                sys_reset_length: 0,
                clk_prescale: 0,
                stg0_hold: 0,
                feed_count: 0,
                conf_update_count: 0,
            },
        }
    }

    /// Full write of the main configuration register; ignored while
    /// locked.
    #[allow(clippy::too_many_arguments)]
    fn write_config0(
        &mut self,
        en: bool,
        stg0: u8,
        stg1: u8,
        stg2: u8,
        stg3: u8,
        cpu_reset_length: u8,
        sys_reset_length: u8,
    )
        ensures
            final(self).protect == old(self).protect,
            final(self).cfg == if old(self).unlocked() {
                TgWdtConfig {
                    en,
                    stg0,
                    stg1,
                    stg2,
                    stg3,
                    cpu_reset_length,
                    sys_reset_length,
                    ..old(self).cfg
                }
            } else {
                old(self).cfg
            },
    {
        if self.protect.wkey == crate::protect::WDT_UNLOCK_KEY {
            self.cfg.en = en;
            self.cfg.stg0 = stg0;
            self.cfg.stg1 = stg1;
            self.cfg.stg2 = stg2;
            self.cfg.stg3 = stg3;
            self.cfg.cpu_reset_length = cpu_reset_length;
            self.cfg.sys_reset_length = sys_reset_length;
        }
    }

    /// Write the watchdog clock prescaler; ignored while locked.
    fn write_prescale(&mut self, v: u16)
        ensures
            final(self).protect == old(self).protect,
            final(self).cfg == if old(self).unlocked() {
                TgWdtConfig { clk_prescale: v, ..old(self).cfg }
            } else {
                old(self).cfg
            },
    {
        if self.protect.wkey == crate::protect::WDT_UNLOCK_KEY {
            self.cfg.clk_prescale = v;
        }
    }

    /// Write the stage-0 timeout threshold; ignored while locked.
    fn write_stg0_hold(&mut self, v: u32)
        ensures
            final(self).protect == old(self).protect,
            final(self).cfg == if old(self).unlocked() {
                TgWdtConfig { stg0_hold: v, ..old(self).cfg }
            } else {
                old(self).cfg
            },
    {
        if self.protect.wkey == crate::protect::WDT_UNLOCK_KEY {
            self.cfg.stg0_hold = v;
        }
    }

    /// Issue a feed pulse, restarting the countdown; ignored while
    /// locked.
    fn write_feed(&mut self)
        ensures
            final(self).protect == old(self).protect,
            final(self).cfg == if old(self).unlocked() {
                TgWdtConfig {
                    feed_count: if old(self).cfg.feed_count == u64::MAX {
                        0u64
                    } else {
                        (old(self).cfg.feed_count + 1) as u64
                    },
                    ..old(self).cfg
                }
            } else {
                old(self).cfg
            },
    {
        if self.protect.wkey == crate::protect::WDT_UNLOCK_KEY {
            if self.cfg.feed_count == u64::MAX {
                self.cfg.feed_count = 0;
            } else {
                self.cfg.feed_count = self.cfg.feed_count + 1;
            }
        }
    }

    /// Issue a configuration-update pulse; ignored while locked.
    fn pulse_conf_update(&mut self)
        ensures
            final(self).protect == old(self).protect,
            final(self).cfg == if old(self).unlocked() {
                TgWdtConfig {
                    conf_update_count: if old(self).cfg.conf_update_count == u64::MAX {
                        0u64
                    } else {
                        (old(self).cfg.conf_update_count + 1) as u64
                    },
                    ..old(self).cfg
                }
            } else {
                old(self).cfg
            },
    {
        if self.protect.wkey == crate::protect::WDT_UNLOCK_KEY {
            if self.cfg.conf_update_count == u64::MAX {
                self.cfg.conf_update_count = 0;
            } else {
                self.cfg.conf_update_count = self.cfg.conf_update_count + 1;
            }
        }
    }
}

/// Raw stage-0 threshold of the timer-group watchdog: the timeout in
/// nanoseconds times 10 / 125, truncated to the register width.
pub open spec fn spec_tg_timeout_raw(micros: u64) -> u32 {
    ((micros * 1000 * 10 / 125) % 0x1_0000_0000) as u32
}

/// Watchdog timer of one timer group.
pub struct Wdt<TG> {
    /// Which chip variant's watchdog this is.
    pub chip: ChipVariant,
    /// The owned register block.
    pub regs: TgWdtRegisters,
    pub _marker: core::marker::PhantomData<TG>,
}

impl<TG: TimerGroupInstance> Wdt<TG> {
    /// A watchdog driver over a freshly reset register block.
    pub fn new(chip: ChipVariant) -> (r: Wdt<TG>)
        ensures
            r.chip == chip,
            r.regs.protect.wkey == crate::protect::LOCK_KEY,
            r.regs.protect.log() == Seq::<u32>::empty(),
            r.regs.cfg == spec_initial_tg_wdt_config(),
    {
        Wdt { chip, regs: TgWdtRegisters::new(), _marker: core::marker::PhantomData }
    }

    /// Enable the watchdog, or disable it by zeroing its whole
    /// configuration register.
    fn set_wdt_enabled(&mut self, enabled: bool)
        ensures
            final(self).regs.cfg == if enabled {
                TgWdtConfig {
                    en: true,
                    stg0: 0u8,
                    stg1: 0u8,
                    stg2: 0u8,
                    stg3: 0u8,
                    cpu_reset_length: 0u8,
                    sys_reset_length: 0u8,
                    ..old(self).regs.cfg
                }
            } else {
                TgWdtConfig {
                    en: false,
                    stg0: 0u8,
                    stg1: 0u8,
                    stg2: 0u8,
                    stg3: 0u8,
                    cpu_reset_length: 0u8,
                    sys_reset_length: 0u8,
                    ..old(self).regs.cfg
                }
            },
            final(self).regs.protect.wkey == crate::protect::LOCK_KEY,
            final(self).regs.protect.log() == old(self).regs.protect.log() + seq![
                crate::protect::WDT_UNLOCK_KEY,
                crate::protect::LOCK_KEY,
            ],
            final(self).chip == old(self).chip,
    {
        self.regs.protect.write(crate::protect::WDT_UNLOCK_KEY);
        if !enabled {
            self.regs.write_config0(false, 0, 0, 0, 0, 0, 0);
        } else {
            self.regs.write_config0(true, 0, 0, 0, 0, 0, 0);
        }
        self.regs.protect.write(crate::protect::LOCK_KEY);
    }

    /// Feed the watchdog: restart the countdown without altering any
    /// stage configuration.
    pub fn feed(&mut self)
        ensures
            final(self).regs.cfg == (TgWdtConfig {
                feed_count: if old(self).regs.cfg.feed_count == u64::MAX {
                    0u64
                } else {
                    (old(self).regs.cfg.feed_count + 1) as u64
                },
                ..old(self).regs.cfg
            }),
            final(self).regs.protect.wkey == crate::protect::LOCK_KEY,
            final(self).regs.protect.log() == old(self).regs.protect.log() + seq![
                crate::protect::WDT_UNLOCK_KEY,
                crate::protect::LOCK_KEY,
            ],
            final(self).chip == old(self).chip,
    {
        self.regs.protect.write(crate::protect::WDT_UNLOCK_KEY);
        self.regs.write_feed();
        self.regs.protect.write(crate::protect::LOCK_KEY);
    }

    /// Write the full single-stage reset configuration for the given
    /// timeout: prescaler 1, the threshold in `ticks = ns * 10 / 125`
    /// units, stage 0 set to reset the system, and the enable bit; the
    /// variant whose watchdog latches its configuration gets the explicit
    /// update pulse.
    fn set_timeout(&mut self, timeout: MicrosecondDuration)
        requires
            timeout.0 <= u64::MAX / 10_000,
        ensures
            final(self).regs.cfg == (TgWdtConfig {
                en: true,
                stg0: 3u8,
                stg1: 0u8,
                stg2: 0u8,
                stg3: 0u8,
                cpu_reset_length: 1u8,
                sys_reset_length: 1u8,
                clk_prescale: 1u16,
                stg0_hold: spec_tg_timeout_raw(timeout.0),
                conf_update_count: if old(self).chip is Esp32c3 {
                    if old(self).regs.cfg.conf_update_count == u64::MAX {
                        0u64
                    } else {
                        (old(self).regs.cfg.conf_update_count + 1) as u64
                    }
                } else {
                    old(self).regs.cfg.conf_update_count
                },
                ..old(self).regs.cfg
            }),
            final(self).regs.protect.wkey == crate::protect::LOCK_KEY,
            final(self).regs.protect.log() == old(self).regs.protect.log() + seq![
                crate::protect::WDT_UNLOCK_KEY,
                crate::protect::LOCK_KEY,
            ],
            final(self).chip == old(self).chip,
    {
        let nanos = timeout.to_micros() * 1000;
        let wide = nanos * 10 / 125;
        let masked = wide & (u32::MAX as u64);
        proof {
            assert(masked == wide % 0x1_0000_0000) by (bit_vector)
                requires
                    masked == wide & 0xFFFF_FFFFu64,
            ;
        }
        let timeout_raw = masked as u32;

        self.regs.protect.write(crate::protect::WDT_UNLOCK_KEY);

        self.regs.write_prescale(1);
        self.regs.write_stg0_hold(timeout_raw);
        self.regs.write_config0(true, 3, 0, 0, 0, 1, 1);

        if matches!(self.chip, ChipVariant::Esp32c3) {
            self.regs.pulse_conf_update();
        }

        self.regs.protect.write(crate::protect::LOCK_KEY);
    }

    /// Stop the watchdog, zeroing its whole configuration register.
    pub fn disable(&mut self)
        ensures
            final(self).regs.cfg == (TgWdtConfig {
                en: false,
                stg0: 0u8,
                stg1: 0u8,
                stg2: 0u8,
                stg3: 0u8,
                cpu_reset_length: 0u8,
                sys_reset_length: 0u8,
                ..old(self).regs.cfg
            }),
            final(self).regs.protect.wkey == crate::protect::LOCK_KEY,
            final(self).regs.protect.log() == old(self).regs.protect.log() + seq![
                crate::protect::WDT_UNLOCK_KEY,
                crate::protect::LOCK_KEY,
            ],
            final(self).chip == old(self).chip,
    {
        self.set_wdt_enabled(false);
    }

    /// Arm the watchdog with the given timeout.
    pub fn start(&mut self, period: MicrosecondDuration)
        requires
            period.0 <= u64::MAX / 10_000,
        ensures
            final(self).regs.cfg == (TgWdtConfig {
                en: true,
                stg0: 3u8,
                stg1: 0u8,
                stg2: 0u8,
                stg3: 0u8,
                cpu_reset_length: 1u8,
                sys_reset_length: 1u8,
                clk_prescale: 1u16,
                stg0_hold: spec_tg_timeout_raw(period.0),
                conf_update_count: if old(self).chip is Esp32c3 {
                    if old(self).regs.cfg.conf_update_count == u64::MAX {
                        0u64
                    } else {
                        (old(self).regs.cfg.conf_update_count + 1) as u64
                    }
                } else {
                    old(self).regs.cfg.conf_update_count
                },
                ..old(self).regs.cfg
            }),
            final(self).regs.protect.wkey == crate::protect::LOCK_KEY,
            final(self).regs.protect.log() == old(self).regs.protect.log() + seq![
                crate::protect::WDT_UNLOCK_KEY,
                crate::protect::LOCK_KEY,
            ],
            final(self).chip == old(self).chip,
    {
        self.set_timeout(period);
    }
}

/// A timer group: one watchdog and one or two counter units, depending
/// on the chip variant.
pub struct TimerGroup<TG> {
    pub timer0: Timer<Timer0<TG>>,
    /// Absent on the variant with single-unit timer groups.
    pub timer1: Option<Timer<Timer1<TG>>>,
    pub wdt: Wdt<TG>,
}

impl<TG: TimerGroupInstance> TimerGroup<TG> {
    /// Acquire the timer-group peripheral, consuming its instance token
    /// so no second driver can be constructed over the same hardware.
    pub fn new(_timer_group: TG, chip: ChipVariant, apb_clk_freq: Hertz) -> (r: TimerGroup<TG>)
        ensures
            r.timer0.timg.regs == spec_initial_timer_registers(chip),
            r.timer0.apb_clk_freq == apb_clk_freq,
            r.timer1 is Some <==> chip.spec_has_second_timer(),
            r.timer1 is Some ==> {
                &&& r.timer1->0.timg.regs == spec_initial_timer_registers(chip)
                &&& r.timer1->0.apb_clk_freq == apb_clk_freq
            },
            r.wdt.chip == chip,
            r.wdt.regs.protect.wkey == crate::protect::LOCK_KEY,
            r.wdt.regs.protect.log() == Seq::<u32>::empty(),
            r.wdt.regs.cfg == spec_initial_tg_wdt_config(),
    {
        let timer0 = Timer::new(Timer0::new(chip), apb_clk_freq);

        let timer1 = if chip.has_second_timer() {
            Some(Timer::new(Timer1::new(chip), apb_clk_freq))
        } else {
            None
        };

        let wdt = Wdt::new(chip);

        TimerGroup { timer0, timer1, wdt }
    }
}

} // verus!
