use esp_hal_common::{
    resolve_cal_target, CalResponse, ChipVariant, RtcCalSel, RtcClock, RtcFastClock, RtcSlowClock,
    XtalClock,
};

fn xtal_reg(mhz: u32) -> u32 {
    (mhz & 0xffff) | ((mhz & 0xffff) << 16)
}

#[test]
fn ratio_is_exact_for_multiples_of_the_window() {
    // A simulated counter that reports exactly 4 reference cycles per
    // window cycle over a 1024-cycle window yields the ratio 4 in Q13.19.
    let mut clock = RtcClock::new(ChipVariant::Esp32s3);
    clock.response = CalResponse::Counted(4 * 1024);
    let ratio = clock.get_calibration_ratio(RtcCalSel::RtcCalRtcMux, 1024);
    assert_eq!(ratio, 4 << 19);
    assert_eq!(clock.cal_max, 1024);
}

#[test]
fn window_register_truncates_to_16_bits() {
    // The window register is 16 bits wide; an oversized window is
    // truncated on arming, as on the hardware.
    let mut clock = RtcClock::new(ChipVariant::Esp32);
    clock.response = CalResponse::Counted(1);
    clock.get_calibration_ratio(RtcCalSel::RtcCalRtcMux, 0x1_0001);
    assert_eq!(clock.cal_max, 1);
}

#[test]
fn ratio_window_of_one() {
    let mut clock = RtcClock::new(ChipVariant::Esp32);
    clock.response = CalResponse::Counted(123);
    let ratio = clock.get_calibration_ratio(RtcCalSel::RtcCalRtcMux, 1);
    assert_eq!(ratio, 123 << 19);
}

#[test]
fn hung_oscillator_gives_zero_ratio_and_period() {
    let mut clock = RtcClock::new(ChipVariant::Esp32s3);
    clock.xtal_freq_reg = xtal_reg(40);
    clock.response = CalResponse::Hung;
    assert_eq!(clock.get_calibration_ratio(RtcCalSel::RtcCal32kXtal, 1024), 0);
    assert_eq!(clock.calibrate(RtcCalSel::RtcCal32kXtal, 1024), 0);
    // The sentinel propagates: the millisecond conversion saturates to an
    // unavailable reading rather than inventing a rate.
    assert_eq!(clock.cycles_to_1ms(), u16::MAX);
}

#[test]
fn calibrate_rounds_to_nearest() {
    // 40 MHz crystal, 1024-cycle window: divider = 40 * 1024 = 40960.
    // A raw count of 1250 gives (1250 << 19 + 20480) / 40960 = 16000.
    let mut clock = RtcClock::new(ChipVariant::Esp32);
    clock.xtal_freq_reg = xtal_reg(40);
    clock.response = CalResponse::Counted(1250);
    assert_eq!(clock.calibrate(RtcCalSel::RtcCalRtcMux, 1024), 16000);
}

#[test]
fn cycles_to_1ms_exact_value() {
    // Period 16000 in Q13.19: 1000 / period = 524288000 / 16000 = 32768.
    let mut clock = RtcClock::new(ChipVariant::Esp32);
    clock.xtal_freq_reg = xtal_reg(40);
    clock.response = CalResponse::Counted(1250);
    assert_eq!(clock.cycles_to_1ms(), 32768);
}

#[test]
fn calibration_restores_measurement_routing() {
    // The divided-oscillator routing flag is altered only for the
    // measurement and must come back exactly as found.
    let mut clock = RtcClock::new(ChipVariant::Esp32s3);
    clock.dig_clk8m_d256_en = true;
    clock.dig_xtal32k_en = false;
    clock.response = CalResponse::Counted(100);
    clock.get_calibration_ratio(RtcCalSel::RtcCal8mD256, 10);
    assert!(clock.dig_clk8m_d256_en);
    assert!(!clock.dig_xtal32k_en);

    // The 32 kHz routing is enabled for a crystal measurement and then
    // restored.
    let mut clock = RtcClock::new(ChipVariant::Esp32s3);
    clock.response = CalResponse::Hung;
    clock.get_calibration_ratio(RtcCalSel::RtcCal32kXtal, 16);
    assert!(!clock.dig_xtal32k_en);
}

#[test]
fn target_resolution_policy_per_family() {
    // The earliest variant calibrates the literally requested clock.
    assert_eq!(
        resolve_cal_target(
            ChipVariant::Esp32,
            RtcCalSel::RtcCalRtcMux,
            RtcSlowClock::RtcSlowClock32kXtal
        ),
        RtcCalSel::RtcCalRtcMux
    );
    // The others resolve the mux to the concrete backing clock.
    assert_eq!(
        resolve_cal_target(
            ChipVariant::Esp32s3,
            RtcCalSel::RtcCalRtcMux,
            RtcSlowClock::RtcSlowClock32kXtal
        ),
        RtcCalSel::RtcCal32kXtal
    );
    assert_eq!(
        resolve_cal_target(
            ChipVariant::Esp32s2,
            RtcCalSel::RtcCalRtcMux,
            RtcSlowClock::RtcSlowClock8mD256
        ),
        RtcCalSel::RtcCal8mD256
    );
    assert_eq!(
        resolve_cal_target(
            ChipVariant::Esp32c3,
            RtcCalSel::RtcCalInternalOsc,
            RtcSlowClock::RtcSlowClockRtc
        ),
        RtcCalSel::RtcCalRtcMux
    );
}

#[test]
fn xtal_frequency_register_decoding() {
    let clock = |chip: ChipVariant, reg: u32| {
        let mut c = RtcClock::new(chip);
        c.xtal_freq_reg = reg;
        c.get_xtal_freq()
    };
    // Invalid encodings fall back to the 40 MHz default.
    assert_eq!(clock(ChipVariant::Esp32, 0), XtalClock::RtcXtalFreq40M);
    assert_eq!(clock(ChipVariant::Esp32, u32::MAX), XtalClock::RtcXtalFreq40M);
    assert_eq!(clock(ChipVariant::Esp32, 0x0028_0029), XtalClock::RtcXtalFreq40M);
    // Valid mirrored halves decode per family.
    assert_eq!(clock(ChipVariant::Esp32, xtal_reg(40)), XtalClock::RtcXtalFreq40M);
    assert_eq!(clock(ChipVariant::Esp32, xtal_reg(26)), XtalClock::RtcXtalFreq26M);
    assert_eq!(clock(ChipVariant::Esp32, xtal_reg(24)), XtalClock::RtcXtalFreq24M);
    assert_eq!(clock(ChipVariant::Esp32s3, xtal_reg(32)), XtalClock::RtcXtalFreq32M);
    assert_eq!(clock(ChipVariant::Esp32s3, xtal_reg(26)), XtalClock::RtcXtalFreqOther(26));
    assert_eq!(clock(ChipVariant::Esp32s2, xtal_reg(17)), XtalClock::RtcXtalFreqOther(17));
}

#[test]
fn estimate_xtal_frequency_scenario() {
    // On the earliest variant the fast oscillator runs at a nominal
    // 8.5 MHz; a raw count of 2560 over 10 divided cycles works out to an
    // estimate of exactly 8 MHz.
    let mut clock = RtcClock::new(ChipVariant::Esp32);
    clock.response = CalResponse::Counted(2560);
    assert_eq!(clock.estimate_xtal_frequency(), 8);
    // The oscillator enables were forced on for the measurement and are
    // restored exactly as found.
    assert!(!clock.ck8m_enabled);
    assert!(!clock.ck8m_d256_enabled);
}

#[test]
fn slow_clock_selection_and_settle_delays() {
    let mut clock = RtcClock::new(ChipVariant::Esp32s2);
    clock.set_slow_freq(RtcSlowClock::RtcSlowClock32kXtal);
    assert_eq!(clock.get_slow_freq(), RtcSlowClock::RtcSlowClock32kXtal);
    assert!(clock.dig_xtal32k_en);
    assert!(!clock.ck8m_force_pu);
    assert_eq!(clock.busy_wait_us, 300);

    clock.set_slow_freq(RtcSlowClock::RtcSlowClock8mD256);
    assert!(clock.ck8m_force_pu);
    assert!(!clock.dig_xtal32k_en);

    clock.set_fast_freq(RtcFastClock::RtcFastClock8m);
    assert_eq!(clock.fast_clk_sel, RtcFastClock::RtcFastClock8m);
    assert_eq!(clock.busy_wait_us, 300 + 300 + 3);
}

#[test]
fn nominal_frequencies_per_family() {
    assert_eq!(RtcSlowClock::RtcSlowClockRtc.frequency_hz(ChipVariant::Esp32), 150_000);
    assert_eq!(RtcSlowClock::RtcSlowClockRtc.frequency_hz(ChipVariant::Esp32s2), 90_000);
    assert_eq!(RtcSlowClock::RtcSlowClockRtc.frequency_hz(ChipVariant::Esp32c3), 136_000);
    assert_eq!(RtcSlowClock::RtcSlowClock32kXtal.frequency_hz(ChipVariant::Esp32s3), 32768);
    assert_eq!(RtcSlowClock::RtcSlowClock8mD256.frequency_hz(ChipVariant::Esp32), 8_500_000 / 256);
    assert_eq!(
        RtcSlowClock::RtcSlowClock8mD256.frequency_hz(ChipVariant::Esp32s3),
        17_500_000 / 256
    );
    assert_eq!(RtcFastClock::RtcFastClockXtalD4.frequency_hz(ChipVariant::Esp32), 10_000_000);
    assert_eq!(RtcFastClock::RtcFastClock8m.frequency_hz(ChipVariant::Esp32s2), 8_500_000);
    assert_eq!(RtcFastClock::RtcFastClock8m.frequency_hz(ChipVariant::Esp32c3), 17_500_000);
}
