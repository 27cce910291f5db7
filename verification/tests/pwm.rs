use foc_core::carrier_freq_hz;
use foc_core::tim::PwmTim;

#[test]
fn setup_programs_the_documented_image() {
    let mut t = PwmTim::new();
    t.setup_bldc_pwm(8500);
    assert!(t.cen);
    assert_eq!(t.cms, 1);
    assert_eq!(t.arr, 8499);
    assert_eq!(t.psc, 0);
    assert_eq!(t.rcr, 1);
    assert_eq!(t.mms, 7);
    assert_eq!(t.mms2, 8);
    // Phase legs at zero duty, preloaded PWM mode 1.
    assert!(t.ch1.preload && t.ch2.preload && t.ch3.preload);
    assert_eq!(t.ch1.ccr_active, 0);
    assert_eq!(t.ch2.ccr_active, 0);
    assert_eq!(t.ch3.ccr_active, 0);
    // Trigger channels: just after reload while down-counting, and
    // near zero.
    assert_eq!(t.ch4.ccr_active, 8498);
    assert_eq!(t.ch5.ccr_active, 1);
    // Complementary outputs on, dead time in, master output still off.
    assert!(t.cc1e && t.cc1ne && t.cc2e && t.cc2ne && t.cc3e && t.cc3ne);
    assert_eq!(t.dtg, 85);
    assert!(t.ossi);
    assert!(!t.moe);
    assert!(t.uie && t.bie);
}

#[test]
fn carrier_frequency_boundaries() {
    assert_eq!(carrier_freq_hz(170_000_000, 1), 85_000_000);
    assert_eq!(carrier_freq_hz(170_000_000, 65536), 1296);
    assert_eq!(carrier_freq_hz(0, 8500), 0);
}

#[test]
fn motor_on_gates_outputs_only() {
    let mut t = PwmTim::new();
    t.setup_bldc_pwm(8500);
    assert!(!t.moe);
    t.motor_on();
    assert!(t.moe);
    assert_eq!(t.arr, 8499);
}

#[test]
fn duty_scaling_stays_within_period() {
    // Requested fractions across [0, 65536) scale into [0, arr] for
    // every period.
    for period in [2u32, 3, 100, 8500, 65536] {
        let mut t = PwmTim::new();
        t.setup_bldc_pwm(period);
        for req in [0u32, 1, 32768, 65535] {
            t.set_bldc_pwm(req, req, req);
            t.update_event();
            let (a, b, c) = t.observed_duty();
            assert!(a <= t.arr && b <= t.arr && c <= t.arr);
        }
    }
}

#[test]
fn duty_scaling_exact_value() {
    let mut t = PwmTim::new();
    t.setup_bldc_pwm(8500);
    t.set_bldc_pwm(32768, 0, 65535);
    // 32768 * 8499 / 65536 and 65535 * 8499 / 65536, truncated.
    assert_eq!(t.ch1.ccr_preload, 4249);
    assert_eq!(t.ch2.ccr_preload, 0);
    assert_eq!(t.ch3.ccr_preload, 8498);
}

#[test]
fn set_duty_is_glitch_free_until_update() {
    let mut t = PwmTim::new();
    t.setup_bldc_pwm(8500);
    t.set_bldc_pwm(10000, 20000, 30000);
    t.update_event();
    let before = t.observed_duty();

    // A new duty written mid-period leaves the observed waveform on
    // the old values...
    t.set_bldc_pwm(60000, 50000, 40000);
    assert_eq!(t.observed_duty(), before);

    // ...and takes effect exactly at the next update event.
    t.update_event();
    assert_eq!(
        t.observed_duty(),
        (60000 * 8499 / 65536, 50000 * 8499 / 65536, 40000 * 8499 / 65536)
    );
}

#[test]
fn stop_rewinds_counter() {
    let mut t = PwmTim::new();
    t.setup_bldc_pwm(8500);
    t.stop();
    assert!(!t.cen);
    assert_eq!(t.cnt, 0);
    t.start_oneshot(1000);
    assert!(t.cen && t.opm);
    assert_eq!(t.arr, 1000);
}

#[test]
fn clear_uif_clears_only_the_flag() {
    let mut t = PwmTim::new();
    t.setup_bldc_pwm(8500);
    t.update_event();
    assert!(t.uif);
    t.clear_uif();
    assert!(!t.uif);
    assert_eq!(t.arr, 8499);
}
