use foc_core::adc::{reference_voltage_uv, Adc1, Adc12Common, Adc2};

fn flat_samples(value: u16, count: usize) -> Vec<u16> {
    vec![value; count]
}

#[test]
fn reference_voltage_in_range_is_scaled_trim() {
    // 3.0 V * code / 4095, exact.
    for code in [1570u16, 1600, 1655, 1700, 1734] {
        let expect = (3_000_000u64 * code as u64 / 4095) as u32;
        assert_eq!(reference_voltage_uv(code), expect);
        let exact = 3.0f64 * code as f64 / 4095.0;
        assert!((reference_voltage_uv(code) as f64 / 1e6 - exact).abs() < 1e-6);
    }
    assert_eq!(reference_voltage_uv(1655), 1_212_454);
}

#[test]
fn reference_voltage_out_of_range_is_default() {
    for code in [0u16, 100, 1569, 1735, 4095, 65535] {
        assert_eq!(reference_voltage_uv(code), 1_212_000);
    }
}

#[test]
fn adc1_setup_configures_production_sequences() {
    let mut common = Adc12Common::new();
    let mut adc = Adc1::new(0x5000_0040);
    let samples = flat_samples(1500, 128);
    adc.setup(&mut common, 1655, &samples);

    assert!(common.dual_rj && common.vrefen && common.dmacfg);
    assert!(adc.regs.cfgr.jqdis);
    assert!(adc.regs.cfgr.dmaen && adc.regs.cfgr.dmacfg_circular);
    assert!(adc.regs.cfgr.ovrmod_overwrite);
    assert!(adc.regs.cfgr.exten_rising && adc.regs.jsqr.jexten_rising);
    assert_eq!(adc.regs.sqr1.l, 7);
    assert_eq!(adc.regs.sqr1.sq1, 3);
    assert_eq!(adc.regs.sqr2.sq8, 3);
    assert_eq!(adc.regs.jsqr.jl, 1);
    assert_eq!(adc.regs.jsqr.jsq1, 13);
    assert_eq!(adc.regs.jsqr.jsq2, 13);
    assert!(adc.regs.ier.jeosie);
    assert!(adc.regs.aden);
    assert_eq!(adc.dr(), 0x5000_0040);

    // vref_cal = 1.212454 V * 4095 * 128 / (128 * 1500) microvolts.
    assert_eq!(adc.vref_cal_uv, 1_212_454u64 * 4095 * 128 / 192_000);
    assert_eq!(adc.vref_cal_uv, 3_309_999);
}

#[test]
fn adc2_setup_configures_production_sequences() {
    let mut adc = Adc2::new(0x5000_0140);
    adc.setup();
    assert!(adc.regs.cfgr.jqdis && adc.regs.cfgr.ovrmod_overwrite);
    assert_eq!(adc.regs.sqr1.sq1, 1);
    assert_eq!(adc.regs.jsqr.jsq1, 16);
    assert_eq!(adc.regs.jsqr.jsq2, 16);
    // Only unit 1 serves the injected end-of-sequence interrupt.
    assert!(!adc.regs.ier.jeosie);
    assert_eq!(adc.vref_cal_uv, 0);
}

#[test]
fn one_shot_average_restores_saved_registers() {
    let mut common = Adc12Common::new();
    let mut adc = Adc1::new(0);
    let cal = flat_samples(1500, 128);
    adc.setup(&mut common, 1655, &cal);

    let smpr2 = adc.regs.smpr2;
    let sqr1 = adc.regs.sqr1;
    let cfgr = adc.regs.cfgr;
    let cfgr2 = adc.regs.cfgr2;
    let ier = adc.regs.ier;

    let mut shot: Vec<u16> = Vec::new();
    for i in 0..64u16 {
        shot.push(2000 + (i % 7));
    }
    let avg = adc.get_avg_reading(13, &shot);

    // The diagnostic read leaves every saved register bit-identical.
    assert_eq!(adc.regs.smpr2, smpr2);
    assert_eq!(adc.regs.sqr1, sqr1);
    assert_eq!(adc.regs.cfgr, cfgr);
    assert_eq!(adc.regs.cfgr2, cfgr2);
    assert_eq!(adc.regs.ier, ier);

    let sum: u32 = shot.iter().map(|&c| c as u32).sum();
    assert_eq!(avg as u32, sum / 64);
}

#[test]
fn one_shot_average_twice_is_idempotent_on_registers() {
    let mut adc = Adc2::new(0);
    adc.setup();
    let before = adc.regs;
    let shot = flat_samples(123, 64);
    let avg1 = adc.get_avg_reading(16, &shot);
    let avg2 = adc.get_avg_reading(16, &shot);
    assert_eq!(avg1, 123);
    assert_eq!(avg2, 123);
    assert_eq!(adc.regs.smpr2, before.smpr2);
    assert_eq!(adc.regs.sqr1, before.sqr1);
    assert_eq!(adc.regs.cfgr, before.cfgr);
    assert_eq!(adc.regs.cfgr2, before.cfgr2);
    assert_eq!(adc.regs.ier, before.ier);
}

#[test]
fn overrun_overwrites_and_never_stalls() {
    let mut common = Adc12Common::new();
    let mut adc = Adc1::new(0);
    let cal = flat_samples(1500, 128);
    adc.setup(&mut common, 1655, &cal);
    adc.start();
    assert!(adc.regs.adstart && adc.regs.jadstart);

    // First injected conversion completes and is left unread.
    let overrun = adc.regs.injected_complete_event(2100);
    assert!(!overrun);
    assert!(adc.read_jeos());

    // The next conversion completes before the data was read: the new
    // code overwrites the old one, the overrun is reported, and the
    // converter keeps running - the next sample is not delayed.
    let overrun = adc.regs.injected_complete_event(2222);
    assert!(overrun);
    assert_eq!(adc.get_inj_data(), 2222);
    assert!(adc.regs.jadstart);

    // After a read-and-clear, the following conversion is clean again.
    adc.clear_jeos();
    let overrun = adc.regs.injected_complete_event(2050);
    assert!(!overrun);
    assert_eq!(adc.get_inj_data(), 2050);
}

#[test]
fn vref_calibration_scales_with_average_code() {
    // A higher averaged reference code means a lower full-scale
    // voltage for the board.
    let mut common1 = Adc12Common::new();
    let mut low = Adc1::new(0);
    low.setup(&mut common1, 1655, &flat_samples(1400, 128));
    let mut common2 = Adc12Common::new();
    let mut high = Adc1::new(0);
    high.setup(&mut common2, 1655, &flat_samples(1600, 128));
    assert!(low.vref_cal_uv > high.vref_cal_uv);
    assert_eq!(low.vref_cal_uv, 1_212_454u64 * 4095 / 1400);
    assert_eq!(high.vref_cal_uv, 1_212_454u64 * 4095 / 1600);
}
