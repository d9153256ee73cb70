use esp_hal_common::{
    CalResponse, ChipVariant, MicrosecondDuration, Rtc, RtcClock, Rwdt, RwdtStageAction, Swd,
    LOCK_KEY, SWD_UNLOCK_KEY, WDT_UNLOCK_KEY,
};

fn xtal_reg(mhz: u32) -> u32 {
    (mhz & 0xffff) | ((mhz & 0xffff) << 16)
}

#[test]
fn feeding_clears_no_stage_configuration() {
    // With listen() active, stage 0 stays configured as "interrupt"
    // through any number of feed pulses.
    let mut rwdt = Rwdt::new(ChipVariant::Esp32s3, 0);
    rwdt.listen();
    assert_eq!(rwdt.regs.cfg.stg0, 1);
    assert!(rwdt.regs.cfg.int_ena);
    for _ in 0..5 {
        rwdt.feed();
    }
    assert_eq!(rwdt.regs.cfg.stg0, 1);
    assert_eq!(rwdt.regs.cfg.stg1, 0);
    assert_eq!(rwdt.regs.cfg.stg2, 0);
    assert_eq!(rwdt.regs.cfg.stg3, 0);
    assert!(rwdt.regs.cfg.int_ena);
    assert!(matches!(rwdt.stg0_action, RwdtStageAction::RwdtStageActionInterrupt));
    assert_eq!(rwdt.regs.cfg.feed_count, 5);
}

#[test]
fn protected_writes_are_bracketed() {
    // Every operation appends exactly one unlock followed by one lock:
    // for every unlock observed, exactly one matching lock follows before
    // the next unlock.
    let mut rwdt = Rwdt::new(ChipVariant::Esp32, 0);
    rwdt.listen();
    rwdt.feed();
    rwdt.disable();
    assert_eq!(
        rwdt.regs.protect.writes,
        vec![
            WDT_UNLOCK_KEY,
            LOCK_KEY,
            WDT_UNLOCK_KEY,
            LOCK_KEY,
            WDT_UNLOCK_KEY,
            LOCK_KEY
        ]
    );
    assert_eq!(rwdt.regs.protect.wkey, LOCK_KEY);
}

#[test]
fn locked_registers_ignore_writes() {
    // Without the unlock key nothing in the protected region moves; the
    // model drops such writes just as the hardware does. A full driver
    // operation performs the unlock and lands its write.
    let mut rwdt = Rwdt::new(ChipVariant::Esp32, 0);
    assert_eq!(rwdt.regs.protect.wkey, LOCK_KEY);
    rwdt.listen();
    assert_eq!(rwdt.regs.cfg.stg0, 1);
}

#[test]
fn rwdt_start_writes_full_configuration() {
    // 40 MHz crystal, raw count 1250 over the 1024-cycle window gives
    // 32768 slow-clock cycles per millisecond; a 2 s period then loads
    // 2000 * 32768 = 65_536_000 into the stage-0 hold register.
    let mut clock = RtcClock::new(ChipVariant::Esp32);
    clock.xtal_freq_reg = xtal_reg(40);
    clock.response = CalResponse::Counted(1250);

    let mut rwdt = Rwdt::new(ChipVariant::Esp32, 0);
    rwdt.start(MicrosecondDuration(2_000_000), &mut clock);

    assert_eq!(rwdt.regs.cfg.stg0_hold, 65_536_000);
    assert!(rwdt.regs.cfg.en);
    // Stage 0 carries its configured reset-RTC action; stages 1-3 are off.
    assert_eq!(rwdt.regs.cfg.stg0, 4);
    assert_eq!(rwdt.regs.cfg.stg1, 0);
    assert_eq!(rwdt.regs.cfg.stg2, 0);
    assert_eq!(rwdt.regs.cfg.stg3, 0);
    assert_eq!(rwdt.regs.cfg.cpu_reset_length, 7);
    assert_eq!(rwdt.regs.cfg.sys_reset_length, 7);
    assert_eq!(rwdt.regs.protect.wkey, LOCK_KEY);
}

#[test]
fn rwdt_start_applies_fuse_shift_on_later_variants() {
    let mut clock = RtcClock::new(ChipVariant::Esp32s3);
    clock.xtal_freq_reg = xtal_reg(40);
    clock.response = CalResponse::Counted(1250);

    let mut rwdt = Rwdt::new(ChipVariant::Esp32s3, 1);
    rwdt.start(MicrosecondDuration(2_000_000), &mut clock);

    // The raw threshold is shifted right by 1 + multiplier.
    assert_eq!(rwdt.regs.cfg.stg0_hold, 65_536_000 >> 2);
}

#[test]
fn rwdt_interrupt_lifecycle() {
    let mut rwdt = Rwdt::new(ChipVariant::Esp32s2, 0);
    rwdt.listen();
    assert!(!rwdt.is_interrupt_set());
    rwdt.hw_expire_stage0();
    assert!(rwdt.is_interrupt_set());
    rwdt.clear_interrupt();
    assert!(!rwdt.is_interrupt_set());

    // After unlisten, stage 0 resets the RTC instead of interrupting.
    rwdt.unlisten();
    assert_eq!(rwdt.regs.cfg.stg0, 4);
    assert!(!rwdt.regs.cfg.int_ena);
    rwdt.hw_expire_stage0();
    assert!(!rwdt.is_interrupt_set());
}

#[test]
fn rwdt_disable_clears_enable_and_flashboot() {
    let mut rwdt = Rwdt::new(ChipVariant::Esp32, 0);
    rwdt.disable();
    assert!(!rwdt.regs.cfg.en);
    assert!(!rwdt.regs.cfg.flashboot_mod_en);
}

#[test]
fn swd_disable_sets_auto_feed_with_its_own_key() {
    let mut swd = Swd::new();
    assert!(!swd.regs.auto_feed_en);
    swd.disable();
    assert!(swd.regs.auto_feed_en);
    assert_eq!(swd.regs.protect.writes, vec![SWD_UNLOCK_KEY, LOCK_KEY]);
    // The two watchdog families use distinct magic keys.
    assert_ne!(SWD_UNLOCK_KEY, WDT_UNLOCK_KEY);
}

#[test]
fn rtc_owns_super_watchdog_only_where_present() {
    assert!(Rtc::new(ChipVariant::Esp32c3, 0).swd.is_some());
    assert!(Rtc::new(ChipVariant::Esp32s3, 0).swd.is_some());
    assert!(Rtc::new(ChipVariant::Esp32, 0).swd.is_none());
    assert!(Rtc::new(ChipVariant::Esp32s2, 0).swd.is_none());
}

#[test]
fn rtc_estimate_xtal_frequency_delegates() {
    let mut rtc = Rtc::new(ChipVariant::Esp32, 0);
    rtc.clock.response = CalResponse::Counted(2560);
    assert_eq!(rtc.estimate_xtal_frequency(), 8);
}

#[test]
fn rwdt_default_is_earliest_variant() {
    let rwdt = Rwdt::default();
    assert!(matches!(rwdt.chip, ChipVariant::Esp32));
    assert!(matches!(rwdt.stg0_action, RwdtStageAction::RwdtStageActionResetRtc));
    assert!(matches!(rwdt.stg1_action, RwdtStageAction::RwdtStageActionOff));
    assert_eq!(rwdt.rwdt_multiplier, 0);
}
