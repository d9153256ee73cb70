use esp_hal_common::{
    timeout_to_ticks, ChipVariant, Error, Hertz, Instance, MicrosecondDuration, Timer, Timer0,
    TimerGroup, COUNTER_MASK, LOCK_KEY, TIMG0, TIMG1, WDT_UNLOCK_KEY,
};

fn group80(chip: ChipVariant) -> TimerGroup<TIMG0> {
    TimerGroup::new(TIMG0, chip, Hertz(80_000_000))
}

#[test]
fn divider_mapping_is_total_and_exact() {
    let mut t: Timer0<TIMG0> = Timer0::new(ChipVariant::Esp32);
    t.regs.divider = 0;
    assert_eq!(t.divider(), 65536);
    t.regs.divider = 1;
    assert_eq!(t.divider(), 2);
    t.regs.divider = 2;
    assert_eq!(t.divider(), 2);
    t.regs.divider = 3;
    assert_eq!(t.divider(), 3);
    t.regs.divider = 5;
    assert_eq!(t.divider(), 5);
    t.regs.divider = u16::MAX;
    assert_eq!(t.divider(), 65535);
}

#[test]
fn start_loads_forty_thousand_ticks() {
    // 1000 us at 80 MHz through divider 2:
    // 1000 * 80_000_000 / 2 / 1_000_000 = 40_000.
    let mut group = group80(ChipVariant::Esp32s3);
    assert_eq!(group.timer0.timg.divider(), 2);
    group.timer0.start(MicrosecondDuration(1000));
    assert_eq!(group.timer0.timg.regs.alarm_lo, 40_000);
    assert_eq!(group.timer0.timg.regs.alarm_hi, 0);
    assert_eq!(group.timer0.read_raw(), 0);
    assert!(group.timer0.timg.regs.en);
    assert!(group.timer0.timg.regs.alarm_en);
    assert!(group.timer0.timg.regs.autoreload);
    assert!(group.timer0.timg.regs.increase);
}

#[test]
fn timeout_to_ticks_values() {
    assert_eq!(
        timeout_to_ticks(MicrosecondDuration(1000), Hertz(80_000_000), 2),
        40_000
    );
    // Divider 65536: one second of 80 MHz prescaled down to about
    // 1220.7 Hz truncates to 1220 ticks.
    assert_eq!(
        timeout_to_ticks(MicrosecondDuration(1_000_000), Hertz(80_000_000), 65536),
        1220
    );
    assert_eq!(timeout_to_ticks(MicrosecondDuration(0), Hertz(80_000_000), 2), 0);
}

#[test]
fn start_respects_the_divider_quirk() {
    // A zero divider field divides by 65536: one second at 80 MHz then
    // loads 1220 ticks.
    let mut group = group80(ChipVariant::Esp32);
    group.timer0.timg.regs.divider = 0;
    group.timer0.start(MicrosecondDuration(1_000_000));
    assert_eq!(group.timer0.timg.regs.alarm_lo, 1220);
    assert_eq!(group.timer0.timg.regs.alarm_hi, 0);
}

#[test]
fn wait_blocks_until_the_period_elapses_then_fires_once() {
    let mut group = group80(ChipVariant::Esp32s3);
    // 1 us at 80 MHz / 2 = 40 ticks per period.
    group.timer0.start(MicrosecondDuration(1));

    // No time has passed: polling would block.
    assert!(group.timer0.wait().is_err());

    for _ in 0..39 {
        group.timer0.timg.hw_tick();
    }
    assert!(group.timer0.wait().is_err());

    // The 40th tick hits the alarm.
    group.timer0.timg.hw_tick();
    assert!(group.timer0.is_interrupt_set());
    assert!(group.timer0.wait().is_ok());
    // Exactly once per elapsed period.
    assert!(group.timer0.wait().is_err());

    // The wait re-armed the alarm; the next period fires again.
    for _ in 0..40 {
        group.timer0.timg.hw_tick();
    }
    assert!(group.timer0.wait().is_ok());
    assert!(group.timer0.wait().is_err());
}

#[test]
fn cancel_semantics() {
    let mut group = group80(ChipVariant::Esp32);
    // Before any start, the counter is stopped.
    assert!(matches!(group.timer0.cancel(), Err(Error::TimerInactive)));

    group.timer0.start(MicrosecondDuration(1));
    assert!(group.timer0.cancel().is_ok());

    // A second cancel after a prior cancel fails again, not silently.
    assert!(matches!(group.timer0.cancel(), Err(Error::TimerInactive)));
}

#[test]
fn cancel_after_alarm_fired_reports_alarm_inactive() {
    let mut group = group80(ChipVariant::Esp32s3);
    group.timer0.start(MicrosecondDuration(1));
    // Let the alarm fire; the comparator disarms itself.
    for _ in 0..40 {
        group.timer0.timg.hw_tick();
    }
    assert!(group.timer0.timg.regs.en);
    assert!(!group.timer0.timg.regs.alarm_en);
    assert!(matches!(group.timer0.cancel(), Err(Error::AlarmInactive)));
}

#[test]
fn autoreload_restarts_counter_from_load_registers() {
    let mut group = group80(ChipVariant::Esp32s3);
    group.timer0.start(MicrosecondDuration(1));
    for _ in 0..40 {
        group.timer0.timg.hw_tick();
    }
    // On the alarm match the counter reloaded from the zeroed load
    // registers and keeps running.
    assert_eq!(group.timer0.read_raw(), 0);
    group.timer0.timg.hw_tick();
    assert_eq!(group.timer0.read_raw(), 1);
}

#[test]
fn alarm_value_is_masked_to_54_bits() {
    let mut t: Timer0<TIMG1> = Timer0::new(ChipVariant::Esp32);
    t.load_alarm_value(u64::MAX);
    assert_eq!(t.regs.alarm_lo, 0xFFFF_FFFF);
    assert_eq!(t.regs.alarm_hi, 0x3F_FFFF);
    t.load_alarm_value(0x1234_5678_9ABC);
    assert_eq!(t.regs.alarm_lo, 0x5678_9ABC);
    assert_eq!(t.regs.alarm_hi, 0x1234);
}

#[test]
fn counter_wraps_in_both_directions() {
    let mut t: Timer0<TIMG0> = Timer0::new(ChipVariant::Esp32);
    t.regs.en = true;
    t.regs.counter = COUNTER_MASK;
    t.hw_tick();
    assert_eq!(t.read_raw(), 0);

    t.set_counter_decrementing(true);
    t.hw_tick();
    assert_eq!(t.read_raw(), COUNTER_MASK);
}

#[test]
fn listen_selects_level_interrupts_on_early_variants() {
    let mut group = group80(ChipVariant::Esp32);
    group.timer0.listen();
    assert!(group.timer0.timg.regs.int_ena);
    assert!(group.timer0.timg.regs.level_int_en);
    group.timer0.unlisten();
    assert!(!group.timer0.timg.regs.int_ena);

    let mut group = group80(ChipVariant::Esp32c3);
    group.timer0.listen();
    assert!(group.timer0.timg.regs.int_ena);
    assert!(!group.timer0.timg.regs.level_int_en);
}

#[test]
fn clear_interrupt_drops_the_raw_flag() {
    let mut group = group80(ChipVariant::Esp32s2);
    group.timer0.start(MicrosecondDuration(1));
    for _ in 0..40 {
        group.timer0.timg.hw_tick();
    }
    assert!(group.timer0.is_interrupt_set());
    group.timer0.clear_interrupt();
    assert!(!group.timer0.is_interrupt_set());
}

#[test]
fn free_returns_the_unit() {
    let group = group80(ChipVariant::Esp32);
    let unit = group.timer0.free();
    assert_eq!(unit.regs.divider, 1);
}

#[test]
fn second_timer_exists_only_on_dual_unit_groups() {
    assert!(group80(ChipVariant::Esp32).timer1.is_some());
    assert!(group80(ChipVariant::Esp32s2).timer1.is_some());
    assert!(group80(ChipVariant::Esp32s3).timer1.is_some());
    assert!(group80(ChipVariant::Esp32c3).timer1.is_none());
}

#[test]
fn second_unit_drives_through_the_same_generic_driver() {
    let mut group = group80(ChipVariant::Esp32);
    let timer1 = group.timer1.as_mut().unwrap();
    timer1.start(MicrosecondDuration(1));
    assert_eq!(timer1.timg.regs.alarm_lo, 40);
    for _ in 0..40 {
        timer1.timg.hw_tick();
    }
    assert!(timer1.wait().is_ok());
}

#[test]
fn group_watchdog_timeout_configuration() {
    // 5 s: ticks = 5_000_000_000 ns * 10 / 125 = 400_000_000.
    let mut group = group80(ChipVariant::Esp32s3);
    group.wdt.start(MicrosecondDuration(5_000_000));
    assert_eq!(group.wdt.regs.cfg.stg0_hold, 400_000_000);
    assert_eq!(group.wdt.regs.cfg.clk_prescale, 1);
    assert_eq!(group.wdt.regs.cfg.stg0, 3);
    assert_eq!(group.wdt.regs.cfg.stg1, 0);
    assert_eq!(group.wdt.regs.cfg.cpu_reset_length, 1);
    assert_eq!(group.wdt.regs.cfg.sys_reset_length, 1);
    assert!(group.wdt.regs.cfg.en);
    // This variant needs no configuration-update pulse.
    assert_eq!(group.wdt.regs.cfg.conf_update_count, 0);
    assert_eq!(group.wdt.regs.protect.writes, vec![WDT_UNLOCK_KEY, LOCK_KEY]);
}

#[test]
fn group_watchdog_update_pulse_only_where_required() {
    let mut group = group80(ChipVariant::Esp32c3);
    group.wdt.start(MicrosecondDuration(5_000_000));
    assert_eq!(group.wdt.regs.cfg.conf_update_count, 1);
}

#[test]
fn group_watchdog_feed_and_disable() {
    let mut group = group80(ChipVariant::Esp32);
    group.wdt.start(MicrosecondDuration(1_000_000));
    group.wdt.feed();
    assert_eq!(group.wdt.regs.cfg.feed_count, 1);
    // Feeding leaves the stage configuration alone.
    assert_eq!(group.wdt.regs.cfg.stg0, 3);
    assert!(group.wdt.regs.cfg.en);

    group.wdt.disable();
    assert!(!group.wdt.regs.cfg.en);
    assert_eq!(group.wdt.regs.cfg.stg0, 0);
    assert_eq!(
        group.wdt.regs.protect.writes,
        vec![
            WDT_UNLOCK_KEY,
            LOCK_KEY,
            WDT_UNLOCK_KEY,
            LOCK_KEY,
            WDT_UNLOCK_KEY,
            LOCK_KEY
        ]
    );
}

#[test]
fn duration_conversions() {
    let d = MicrosecondDuration(1_234_567);
    assert_eq!(d.to_millis(), 1234);
    assert_eq!(d.to_micros(), 1_234_567);
}

#[test]
fn chip_capability_policy() {
    assert!(ChipVariant::Esp32c3.has_super_watchdog());
    assert!(ChipVariant::Esp32s3.has_super_watchdog());
    assert!(!ChipVariant::Esp32.has_super_watchdog());
    assert!(!ChipVariant::Esp32s2.has_super_watchdog());
    assert!(!ChipVariant::Esp32c3.has_second_timer());
    assert!(ChipVariant::Esp32.has_second_timer());
}
