//! Dual analog front end: register-transfer models of the two ADC units.
//!
//! Each unit runs one continuously converted, DMA-streamed regular channel
//! and a PWM-triggered injected pair for the phase currents, after a
//! one-time self-calibration. Every ad-hoc blocking read (the reference
//! calibration and the diagnostic one-shot average) saves the unit's
//! one-shot registers, zeroes them, reprograms them, samples, and restores
//! them byte for byte, so the production sequence is never corrupted.
//! The hardware handshakes (regulator ready, calibration done, conversion
//! ready) are awaited by the shell with bounded polls; the model records
//! the observed outcome of each.

use vstd::prelude::*;
use vstd::arithmetic::div_mod::{lemma_div_is_ordered, lemma_multiply_divide_le};
use vstd::arithmetic::mul::{lemma_mul_inequality, lemma_mul_is_commutative};

verus! {

/// Shortest supported sampling time: 2.5 ADC clock cycles.
pub const SMP_2_5_CYCLES: u8 = 0;

/// Long sampling time for slow sources: 24.5 ADC clock cycles.
pub const SMP_24_5_CYCLES: u8 = 3;

/// Maximum sampling time, used for the internal reference: 247.5 cycles.
pub const SMP_247_5_CYCLES: u8 = 6;

/// Injected trigger selection: the PWM generator's first trigger output.
pub const JEXTSEL_TIM1_TRGO: u8 = 0;

/// Regular trigger selection: the PWM generator's second trigger output.
pub const EXTSEL_TIM1_TRGO2: u8 = 10;

/// Lowest factory reference trim code the data sheet documents as valid.
pub const VREFINTCAL_MIN: u16 = 1570;

/// Highest factory reference trim code the data sheet documents as valid.
pub const VREFINTCAL_MAX: u16 = 1734;

/// Fallback internal reference voltage in microvolts: 1.212 V.
pub const VREFINT_DEFAULT_UV: u32 = 1_212_000;

/// Full-scale code of the 12-bit converter.
pub const ADC_FULL_SCALE: u16 = 4095;

/// Channel number of the internal voltage reference.
pub const VREF_CHANNEL: u8 = 18;

/// Samples averaged while calibrating against the internal reference.
pub const VREF_CAL_SAMPLES: usize = 128;

/// Samples averaged by the diagnostic one-shot reading.
pub const ONE_SHOT_SAMPLES: usize = 64;

/// Sampling-time register 1: the per-channel fields this driver programs.
#[derive(Clone, Copy, PartialEq, Eq, Structural, Debug)]
pub struct Smpr1 {
    pub smp3: u8,
    pub smp4: u8,
}

/// Sampling-time register 2: the per-channel fields this driver programs.
#[derive(Clone, Copy, PartialEq, Eq, Structural, Debug)]
pub struct Smpr2 {
    pub smp13: u8,
    pub smp16: u8,
    pub smp18: u8,
}

/// Regular sequence register 1: sequence length and first four slots.
#[derive(Clone, Copy, PartialEq, Eq, Structural, Debug)]
pub struct Sqr1 {
    pub l: u8,
    pub sq1: u8,
    pub sq2: u8,
    pub sq3: u8,
    pub sq4: u8,
}

/// Regular sequence register 2: slots five through eight.
#[derive(Clone, Copy, PartialEq, Eq, Structural, Debug)]
pub struct Sqr2 {
    pub sq5: u8,
    pub sq6: u8,
    pub sq7: u8,
    pub sq8: u8,
}

/// Injected sequence register: length, trigger source and edge, and the
/// two injected slots.
#[derive(Clone, Copy, PartialEq, Eq, Structural, Debug)]
pub struct Jsqr {
    pub jl: u8,
    pub jextsel: u8,
    pub jexten_rising: bool,
    pub jsq1: u8,
    pub jsq2: u8,
}

/// Configuration register: the fields this driver programs.
#[derive(Clone, Copy, PartialEq, Eq, Structural, Debug)]
pub struct Cfgr {
    /// Injected queue disabled, so the injected sequence register holds.
    pub jqdis: bool,
    /// Regular data streamed by DMA, in circular mode.
    pub dmaen: bool,
    pub dmacfg_circular: bool,
    /// Overrun policy: overwrite, never stall on an unread sample.
    pub ovrmod_overwrite: bool,
    /// Regular trigger source and edge.
    pub extsel: u8,
    pub exten_rising: bool,
}

impl Cfgr {
    /// Reset value: everything clear.
    pub open spec fn spec_reset() -> Cfgr {
        Cfgr {
            jqdis: false,
            dmaen: false,
            dmacfg_circular: false,
            ovrmod_overwrite: false,
            extsel: 0,
            exten_rising: false,
        }
    }
}

/// Interrupt enable register: the one field this driver programs.
#[derive(Clone, Copy, PartialEq, Eq, Structural, Debug)]
pub struct Ier {
    /// Injected end-of-sequence interrupt enable.
    pub jeosie: bool,
}

/// The registers saved and restored around every ad-hoc blocking read.
#[derive(Clone, Copy, PartialEq, Eq, Structural, Debug)]
pub struct SavedRegs {
    pub smpr2: Smpr2,
    pub sqr1: Sqr1,
    pub cfgr: Cfgr,
    pub cfgr2: u32,
    pub ier: Ier,
}

/// Life-cycle phase of one ADC unit, derived from its registers.
#[derive(Clone, Copy, PartialEq, Eq, Structural, Debug)]
pub enum AdcPhase {
    /// Deep power-down: nothing works until the regulator is enabled.
    Reset,
    /// Self-calibration in progress.
    Calibrating,
    /// Calibrated and configurable; no conversion started.
    Ready,
    /// Regular or injected conversions started.
    Running,
}

/// Register-transfer model of one ADC unit's register block.
#[derive(Clone, Copy, PartialEq, Eq, Structural, Debug)]
pub struct AdcRegs {
    /// Control register bits.
    pub deeppwd: bool,
    pub advregen: bool,
    pub adcal: bool,
    pub adcaldif_single: bool,
    pub aden: bool,
    pub adstart: bool,
    pub jadstart: bool,
    /// Status register bits.
    pub adrdy: bool,
    pub eoc: bool,
    pub jeos: bool,
    /// Configuration registers.
    pub cfgr: Cfgr,
    pub cfgr2: u32,
    pub smpr1: Smpr1,
    pub smpr2: Smpr2,
    pub sqr1: Sqr1,
    pub sqr2: Sqr2,
    pub jsqr: Jsqr,
    pub ier: Ier,
    /// Regular and first injected data registers.
    pub dr: u16,
    pub jdr1: u16,
}

/// Sum of a sequence of raw codes.
pub open spec fn spec_sum(s: Seq<u16>) -> int
    decreases s.len(),
{
    if s.len() == 0 {
        0
    } else {
        spec_sum(s.drop_last()) + s.last()
    }
}

/// The nominal internal reference voltage in microvolts derived from the
/// factory trim code: `3 V * code / 4095` if the code lies in the
/// documented valid range, else the documented default of 1.212 V.
pub open spec fn spec_reference_voltage_uv(trim_code: u16) -> int {
    if VREFINTCAL_MIN <= trim_code <= VREFINTCAL_MAX {
        3_000_000 * trim_code as int / 4095
    } else {
        VREFINT_DEFAULT_UV as int
    }
}

/// The per-board volts-per-code calibration scale, in microvolts at full
/// scale: the nominal reference voltage divided by the fraction of full
/// scale that the averaged reference reading reached.
pub open spec fn spec_vref_cal_uv(trim_code: u16, codes: Seq<u16>) -> int {
    spec_reference_voltage_uv(trim_code) * 4095 * 128 / spec_sum(codes)
}

/// Compute the nominal internal reference voltage from the trim code.
pub fn reference_voltage_uv(trim_code: u16) -> (uv: u32)
    ensures
        uv == spec_reference_voltage_uv(trim_code),
        uv <= 1_500_000,
{
    if trim_code >= VREFINTCAL_MIN && trim_code <= VREFINTCAL_MAX {
        proof {
            lemma_div_is_ordered(3_000_000 * trim_code as int, 3_000_000int * 1734, 4095);
        }
        ((3_000_000u64 * trim_code as u64) / 4095) as u32
    } else {
        VREFINT_DEFAULT_UV
    }
}

impl AdcRegs {
    /// Reset state of the register block: deep power-down, everything
    /// else clear.
    pub open spec fn spec_reset() -> AdcRegs {
        AdcRegs {
            deeppwd: true,
            advregen: false,
            adcal: false,
            adcaldif_single: false,
            aden: false,
            adstart: false,
            jadstart: false,
            adrdy: false,
            eoc: false,
            jeos: false,
            cfgr: Cfgr::spec_reset(),
            cfgr2: 0,
            smpr1: Smpr1 { smp3: 0, smp4: 0 },
            smpr2: Smpr2 { smp13: 0, smp16: 0, smp18: 0 },
            sqr1: Sqr1 { l: 0, sq1: 0, sq2: 0, sq3: 0, sq4: 0 },
            sqr2: Sqr2 { sq5: 0, sq6: 0, sq7: 0, sq8: 0 },
            jsqr: Jsqr { jl: 0, jextsel: 0, jexten_rising: false, jsq1: 0, jsq2: 0 },
            ier: Ier { jeosie: false },
            dr: 0,
            jdr1: 0,
        }
    }

    /// The unit's life-cycle phase, read off the registers.
    pub open spec fn phase(self) -> AdcPhase {
        if self.deeppwd {
            AdcPhase::Reset
        } else if self.adcal {
            AdcPhase::Calibrating
        } else if self.adstart || self.jadstart {
            AdcPhase::Running
        } else {
            AdcPhase::Ready
        }
    }

    /// Take ownership of a register block in reset state.
    pub fn new() -> (regs: AdcRegs)
        ensures
            regs == AdcRegs::spec_reset(),
            regs.phase() == AdcPhase::Reset,
    {
        AdcRegs {
            deeppwd: true,
            advregen: false,
            adcal: false,
            adcaldif_single: false,
            aden: false,
            adstart: false,
            jadstart: false,
            adrdy: false,
            eoc: false,
            jeos: false,
            cfgr: Cfgr {
                jqdis: false,
                dmaen: false,
                dmacfg_circular: false,
                ovrmod_overwrite: false,
                extsel: 0,
                exten_rising: false,
            },
            cfgr2: 0,
            smpr1: Smpr1 { smp3: 0, smp4: 0 },
            smpr2: Smpr2 { smp13: 0, smp16: 0, smp18: 0 },
            sqr1: Sqr1 { l: 0, sq1: 0, sq2: 0, sq3: 0, sq4: 0 },
            sqr2: Sqr2 { sq5: 0, sq6: 0, sq7: 0, sq8: 0 },
            jsqr: Jsqr { jl: 0, jextsel: 0, jexten_rising: false, jsq1: 0, jsq2: 0 },
            ier: Ier { jeosie: false },
            dr: 0,
            jdr1: 0,
        }
    }

    /// Leave deep power-down and enable the internal voltage regulator.
    /// The shell then waits, bounded, for the regulator-ready handshake
    /// and a fixed settle delay before calibration starts.
    pub fn power_up(&mut self)
        ensures
            *final(self) == (AdcRegs { deeppwd: false, advregen: true, ..*old(self) }),
    {
        self.deeppwd = false;
        self.advregen = true;
    }

    /// Launch single-ended self-calibration. Hardware clears the
    /// calibration bit when it finishes; the shell polls for that,
    /// bounded, and reports it through `calibration_done_event`.
    pub fn start_calibration(&mut self)
        requires
            !old(self).deeppwd,
            old(self).advregen,
            !old(self).aden,
        ensures
            *final(self) == (AdcRegs { adcal: true, adcaldif_single: true, ..*old(self) }),
            final(self).phase() == AdcPhase::Calibrating,
    {
        self.adcal = true;
        self.adcaldif_single = true;
    }

    /// The observed end of self-calibration: hardware has cleared the
    /// calibration bit.
    pub fn calibration_done_event(&mut self)
        ensures
            *final(self) == (AdcRegs { adcal: false, ..*old(self) }),
    {
        self.adcal = false;
    }

    /// Enable the converter. Idempotent: if the enable bit is already
    /// set, nothing changes at all; otherwise the ready flag is cleared
    /// and the enable bit set, and the shell polls, bounded, until the
    /// ready flag is observed again.
    pub fn enable(&mut self)
        ensures
            old(self).aden ==> *final(self) == *old(self),
            !old(self).aden ==> *final(self) == (AdcRegs {
                aden: true,
                adrdy: false,
                ..*old(self)
            }),
            final(self).aden,
    {
        if !self.aden {
            self.adrdy = false;
            self.aden = true;
        }
    }

    /// Start production conversions: the regular-start and injected-start
    /// bits are set atomically in one register write.
    pub fn start(&mut self)
        requires
            old(self).aden,
            old(self).phase() == AdcPhase::Ready,
        ensures
            *final(self) == (AdcRegs { adstart: true, jadstart: true, ..*old(self) }),
            final(self).phase() == AdcPhase::Running,
    {
        self.adstart = true;
        self.jadstart = true;
    }

    /// Clear the injected end-of-sequence flag.
    pub fn clear_jeos(&mut self)
        ensures
            *final(self) == (AdcRegs { jeos: false, ..*old(self) }),
    {
        self.jeos = false;
    }

    /// Read the injected end-of-sequence flag.
    pub fn read_jeos(&self) -> (set: bool)
        ensures
            set == self.jeos,
    {
        self.jeos
    }

    /// Read the first injected data register: the raw phase-current code.
    pub fn get_inj_data(&self) -> (code: u16)
        ensures
            code == self.jdr1,
    {
        self.jdr1
    }

    /// A completed injected sequence under the overwrite overrun policy:
    /// the new code lands in the data register whether or not the previous
    /// one was read, and conversions keep running, so the next-sample
    /// latency stays exactly one PWM period. Returns whether the previous
    /// sample was still unread, in which case it is lost, never blocking.
    pub fn injected_complete_event(&mut self, code: u16) -> (overrun: bool)
        requires
            old(self).phase() == AdcPhase::Running,
            old(self).jadstart,
            old(self).cfgr.ovrmod_overwrite,
        ensures
            *final(self) == (AdcRegs { jdr1: code, jeos: true, ..*old(self) }),
            final(self).jadstart,
            final(self).phase() == AdcPhase::Running,
            overrun == old(self).jeos,
    {
        let overrun = self.jeos;
        self.jdr1 = code;
        self.jeos = true;
        overrun
    }

    /// Copy of the registers that every ad-hoc blocking read must save.
    pub fn save_shot_regs(&self) -> (saved: SavedRegs)
        ensures
            saved == (SavedRegs {
                smpr2: self.smpr2,
                sqr1: self.sqr1,
                cfgr: self.cfgr,
                cfgr2: self.cfgr2,
                ier: self.ier,
            }),
    {
        SavedRegs {
            smpr2: self.smpr2,
            sqr1: self.sqr1,
            cfgr: self.cfgr,
            cfgr2: self.cfgr2,
            ier: self.ier,
        }
    }

    /// Zero the one-shot registers before reprogramming them.
    pub fn zero_shot_regs(&mut self)
        ensures
            *final(self) == (AdcRegs {
                smpr2: Smpr2 { smp13: 0, smp16: 0, smp18: 0 },
                sqr1: Sqr1 { l: 0, sq1: 0, sq2: 0, sq3: 0, sq4: 0 },
                cfgr: Cfgr::spec_reset(),
                cfgr2: 0,
                ier: Ier { jeosie: false },
                ..*old(self)
            }),
    {
        self.smpr2 = Smpr2 { smp13: 0, smp16: 0, smp18: 0 };
        self.sqr1 = Sqr1 { l: 0, sq1: 0, sq2: 0, sq3: 0, sq4: 0 };
        self.cfgr = Cfgr {
            jqdis: false,
            dmaen: false,
            dmacfg_circular: false,
            ovrmod_overwrite: false,
            extsel: 0,
            exten_rising: false,
        };
        self.cfgr2 = 0;
        self.ier = Ier { jeosie: false };
    }

    /// Restore the saved one-shot registers, bit for bit.
    pub fn restore_shot_regs(&mut self, saved: SavedRegs)
        ensures
            *final(self) == (AdcRegs {
                smpr2: saved.smpr2,
                sqr1: saved.sqr1,
                cfgr: saved.cfgr,
                cfgr2: saved.cfgr2,
                ier: saved.ier,
                ..*old(self)
            }),
    {
        self.smpr2 = saved.smpr2;
        self.sqr1 = saved.sqr1;
        self.cfgr = saved.cfgr;
        self.cfgr2 = saved.cfgr2;
        self.ier = saved.ier;
    }

    /// One blocking single-shot conversion: start, observe end of
    /// conversion, clear the flag, read the data register. The start bit
    /// clears itself once the one-element sequence completes.
    pub fn sample_once_event(&mut self, code: u16)
        ensures
            *final(self) == (AdcRegs { dr: code, eoc: false, adstart: false, ..*old(self) }),
    {
        self.adstart = true;
        self.eoc = true;
        self.eoc = false;
        self.adstart = false;
        self.dr = code;
    }

    /// Run `samples.len()` blocking conversions and sum the observed
    /// codes. The codes are what the converter produced; the shell reads
    /// each from the data register after its end-of-conversion handshake.
    fn sampled_sum(&mut self, samples: &Vec<u16>) -> (sum: u32)
        requires
            1 <= samples@.len() <= 1024,
            forall|i: int| 0 <= i < samples@.len() ==> samples@[i] <= ADC_FULL_SCALE,
        ensures
            *final(self) == (AdcRegs {
                dr: samples@[samples@.len() - 1],
                eoc: false,
                adstart: false,
                ..*old(self)
            }),
            sum == spec_sum(samples@),
            sum <= 4095 * samples@.len(),
    {
        let n = samples.len();
        let mut sum: u32 = 0;
        let mut i: usize = 0;
        proof {
            assert(samples@.subrange(0, 0) =~= Seq::<u16>::empty());
        }
        while i < n
            invariant
                0 < n <= 1024,
                i <= n,
                n == samples@.len(),
                forall|k: int| 0 <= k < samples@.len() ==> samples@[k] <= ADC_FULL_SCALE,
                sum == spec_sum(samples@.subrange(0, i as int)),
                sum <= 4095 * i,
                i > 0 ==> *self == (AdcRegs {
                    dr: samples@[i - 1],
                    eoc: false,
                    adstart: false,
                    ..*old(self)
                }),
                i == 0 ==> *self == *old(self),
            decreases n - i,
        {
            let code = samples[i];
            self.sample_once_event(code);
            proof {
                assert(samples@.subrange(0, i + 1).drop_last() =~= samples@.subrange(0, i as int));
                assert(spec_sum(samples@.subrange(0, i + 1)) == sum + code);
            }
            sum = sum + code as u32;
            i = i + 1;
        }
        proof {
            assert(samples@.subrange(0, n as int) =~= samples@);
        }
        sum
    }

    /// Run `samples.len()` blocking conversions and average the observed
    /// codes.
    fn sampled_average(&mut self, samples: &Vec<u16>) -> (avg: u16)
        requires
            1 <= samples@.len() <= 1024,
            forall|i: int| 0 <= i < samples@.len() ==> samples@[i] <= ADC_FULL_SCALE,
        ensures
            *final(self) == (AdcRegs {
                dr: samples@[samples@.len() - 1],
                eoc: false,
                adstart: false,
                ..*old(self)
            }),
            avg == spec_sum(samples@) / samples@.len() as int,
            avg <= ADC_FULL_SCALE,
    {
        let n = samples.len();
        let sum = self.sampled_sum(samples);
        proof {
            lemma_mul_is_commutative(4095, samples@.len() as int);
            lemma_multiply_divide_le(sum as int, samples@.len() as int, 4095);
        }
        (sum / (n as u32)) as u16
    }

    /// The diagnostic one-shot average reading: save the one-shot
    /// registers, zero them, enable the converter, select the maximum
    /// sampling time and the requested channel as a one-element sequence,
    /// average sixty-four blocking conversions, then restore every saved
    /// register bit-identically.
    pub fn one_shot_average(&mut self, chan: u16, samples: &Vec<u16>) -> (avg: u16)
        requires
            old(self).phase() != AdcPhase::Running,
            chan <= 18,
            samples@.len() == ONE_SHOT_SAMPLES,
            forall|i: int| 0 <= i < samples@.len() ==> samples@[i] <= ADC_FULL_SCALE,
        ensures
            final(self).smpr2 == old(self).smpr2,
            final(self).sqr1 == old(self).sqr1,
            final(self).cfgr == old(self).cfgr,
            final(self).cfgr2 == old(self).cfgr2,
            final(self).ier == old(self).ier,
            final(self).aden,
            final(self).dr == samples@[samples@.len() - 1],
            final(self).deeppwd == old(self).deeppwd,
            final(self).advregen == old(self).advregen,
            final(self).adcal == old(self).adcal,
            final(self).jdr1 == old(self).jdr1,
            final(self).jeos == old(self).jeos,
            !final(self).adstart,
            final(self).jadstart == old(self).jadstart,
            avg == spec_sum(samples@) / ONE_SHOT_SAMPLES as int,
            avg <= ADC_FULL_SCALE,
    {
        let saved = self.save_shot_regs();
        self.zero_shot_regs();
        self.enable();
        // Maximum sampling time, and the requested channel as the whole
        // regular sequence.
        self.smpr2 = Smpr2 { smp18: SMP_247_5_CYCLES, ..self.smpr2 };
        self.sqr1 = Sqr1 { sq1: chan as u8, ..self.sqr1 };
        let avg = self.sampled_average(samples);
        self.restore_shot_regs(saved);
        avg
    }
}

/// The production configuration register image of unit 1: regular data
/// streamed circularly by DMA, injected queue disabled, overwrite overrun
/// policy, and both conversions triggered by the PWM generator.
pub open spec fn spec_adc1_cfgr() -> Cfgr {
    Cfgr {
        jqdis: true,
        dmaen: true,
        dmacfg_circular: true,
        ovrmod_overwrite: true,
        extsel: EXTSEL_TIM1_TRGO2,
        exten_rising: true,
    }
}

/// Register-transfer model of the common control block shared by the two
/// ADC units.
pub struct Adc12Common {
    /// Dual mode: regular simultaneous plus injected simultaneous.
    pub dual_rj: bool,
    /// Internal voltage reference enabled.
    pub vrefen: bool,
    /// Dual DMA configuration bit.
    pub dmacfg: bool,
}

impl Adc12Common {
    /// Take ownership of the common block in reset state.
    pub fn new() -> (common: Adc12Common)
        ensures
            !common.dual_rj,
            !common.vrefen,
            !common.dmacfg,
    {
        Adc12Common { dual_rj: false, vrefen: false, dmacfg: false }
    }

    /// Select dual regular/injected simultaneous mode and enable the
    /// internal reference and the dual DMA configuration.
    pub fn configure(&mut self)
        ensures
            *final(self) == (Adc12Common { dual_rj: true, vrefen: true, dmacfg: true }),
    {
        self.dual_rj = true;
        self.vrefen = true;
        self.dmacfg = true;
    }
}

/// ADC unit 1: samples one phase current on its injected channels, streams
/// the die-temperature channel over DMA, and carries the per-board
/// reference calibration factor, since only this unit sees the internal
/// reference channel.
pub struct Adc1 {
    pub regs: AdcRegs,
    /// Per-board volts-per-full-scale factor in microvolts, derived once
    /// during calibration and read-only thereafter.
    pub vref_cal_uv: u64,
    /// Address of the regular data register, used only to bind the DMA
    /// source; never dereferenced by this model.
    pub dr_addr: u32,
}

impl Adc1 {
    /// Take ownership of the unit with its register block in reset state.
    /// `dr_addr` is the fixed address of the unit's regular data register.
    pub fn new(dr_addr: u32) -> (adc: Adc1)
        ensures
            adc.regs == AdcRegs::spec_reset(),
            adc.vref_cal_uv == 0,
            adc.dr_addr == dr_addr,
    {
        Adc1 { regs: AdcRegs::new(), vref_cal_uv: 0, dr_addr }
    }

    /// Vref calibration: derive the nominal reference voltage from the
    /// factory trim word (falling back to the documented default when the
    /// word is out of range), then, under the save/restore pattern, sample
    /// the internal reference channel 128 times at maximum sampling time
    /// and scale the nominal voltage by the averaged fraction of full
    /// scale. The trim word and the sampled codes come from the shell: the
    /// word from its fixed flash address, the codes from the data register
    /// after each conversion handshake.
    pub fn calc_vref(&mut self, trim_code: u16, samples: &Vec<u16>)
        requires
            old(self).regs.phase() == AdcPhase::Ready,
            samples@.len() == VREF_CAL_SAMPLES,
            forall|i: int| 0 <= i < samples@.len() ==> samples@[i] <= ADC_FULL_SCALE,
            spec_sum(samples@) > 0,
        ensures
            final(self).vref_cal_uv == spec_vref_cal_uv(trim_code, samples@),
            final(self).dr_addr == old(self).dr_addr,
            final(self).regs.smpr2 == old(self).regs.smpr2,
            final(self).regs.sqr1 == old(self).regs.sqr1,
            final(self).regs.cfgr == old(self).regs.cfgr,
            final(self).regs.cfgr2 == old(self).regs.cfgr2,
            final(self).regs.ier == old(self).regs.ier,
            final(self).regs.aden,
            !final(self).regs.adstart,
            final(self).regs.phase() == AdcPhase::Ready,
            final(self).regs.smpr1 == old(self).regs.smpr1,
            final(self).regs.sqr2 == old(self).regs.sqr2,
            final(self).regs.jsqr == old(self).regs.jsqr,
            final(self).regs.jdr1 == old(self).regs.jdr1,
    {
        let saved = self.regs.save_shot_regs();
        self.regs.zero_shot_regs();

        // The factory trim word, validated against its documented range.
        let vref_int_uv = reference_voltage_uv(trim_code);

        self.regs.enable();

        // Maximum sampling time for the internal reference, which is the
        // whole one-element regular sequence.
        self.regs.smpr2 = Smpr2 { smp18: SMP_247_5_CYCLES, ..self.regs.smpr2 };
        self.regs.sqr1 = Sqr1 { sq1: VREF_CHANNEL, ..self.regs.sqr1 };

        let sum = self.regs.sampled_sum(samples);

        // vref_cal = reference_voltage / (average / full_scale), carried
        // out at full precision over the sample sum.
        proof {
            lemma_mul_inequality(vref_int_uv as int, 1_500_000, 4095);
            assert(vref_int_uv * 4095 * 128 <= 1_500_000 * 4095 * 128) by (nonlinear_arith)
                requires
                    vref_int_uv * 4095 <= 1_500_000int * 4095,
            ;
        }
        let scaled: u64 = vref_int_uv as u64 * 4095 * 128;
        self.vref_cal_uv = scaled / sum as u64;

        self.regs.restore_shot_regs(saved);
    }

    /// Bring the unit from reset to Ready for production: configure the
    /// common block, power the regulator up, self-calibrate single-ended,
    /// calibrate against the internal reference, then program the
    /// production sequences — the die-temperature channel repeated as the
    /// whole DMA-streamed regular sequence, the phase-current channel
    /// sampled back-to-back as the injected pair on the PWM generator's
    /// trigger with the overwrite overrun policy, and the injected
    /// end-of-sequence interrupt enabled. Between the register steps the
    /// shell waits, bounded, on the regulator-ready and
    /// calibration-done handshakes.
    pub fn setup(&mut self, common: &mut Adc12Common, trim_code: u16, vref_samples: &Vec<u16>)
        requires
            old(self).regs == AdcRegs::spec_reset(),
            vref_samples@.len() == VREF_CAL_SAMPLES,
            forall|i: int| 0 <= i < vref_samples@.len() ==> vref_samples@[i] <= ADC_FULL_SCALE,
            spec_sum(vref_samples@) > 0,
        ensures
            final(common).dual_rj && final(common).vrefen && final(common).dmacfg,
            final(self).vref_cal_uv == spec_vref_cal_uv(trim_code, vref_samples@),
            final(self).regs.cfgr == spec_adc1_cfgr(),
            final(self).regs.cfgr2 == 0,
            final(self).regs.smpr1 == (Smpr1 { smp3: SMP_24_5_CYCLES, smp4: 0 }),
            final(self).regs.smpr2 == (Smpr2 { smp13: SMP_2_5_CYCLES, smp16: 0, smp18: 0 }),
            final(self).regs.sqr1 == (Sqr1 { l: 7, sq1: 3, sq2: 3, sq3: 3, sq4: 3 }),
            final(self).regs.sqr2 == (Sqr2 { sq5: 3, sq6: 3, sq7: 3, sq8: 3 }),
            final(self).regs.jsqr == (Jsqr {
                jl: 1,
                jextsel: JEXTSEL_TIM1_TRGO,
                jexten_rising: true,
                jsq1: 13,
                jsq2: 13,
            }),
            final(self).regs.ier == (Ier { jeosie: true }),
            final(self).regs.aden,
            final(self).regs.phase() == AdcPhase::Ready,
            final(self).dr_addr == old(self).dr_addr,
    {
        common.configure();
        self.regs.power_up();
        // Shell: bounded wait for the regulator handshake, then the fixed
        // settle delay.
        self.regs.start_calibration();
        // Shell: bounded poll until hardware clears the calibration bit.
        self.regs.calibration_done_event();

        self.calc_vref(trim_code, vref_samples);

        // Production configuration.
        self.regs.cfgr = Cfgr {
            jqdis: true,
            dmaen: true,
            dmacfg_circular: true,
            ovrmod_overwrite: true,
            extsel: EXTSEL_TIM1_TRGO2,
            exten_rising: true,
        };
        self.regs.cfgr2 = 0;
        // Long sampling for the temperature channel, shortest for the
        // phase current behind the amplifier.
        self.regs.smpr1 = Smpr1 { smp3: SMP_24_5_CYCLES, smp4: 0 };
        self.regs.smpr2 = Smpr2 { smp13: SMP_2_5_CYCLES, smp16: 0, smp18: 0 };
        // Regular sequence: the temperature channel, repeated.
        self.regs.sqr1 = Sqr1 { l: 7, sq1: 3, sq2: 3, sq3: 3, sq4: 3 };
        self.regs.sqr2 = Sqr2 { sq5: 3, sq6: 3, sq7: 3, sq8: 3 };
        // Injected pair: the phase-current channel back-to-back on the PWM
        // generator's trigger.
        self.regs.jsqr = Jsqr {
            jl: 1,
            jextsel: JEXTSEL_TIM1_TRGO,
            jexten_rising: true,
            jsq1: 13,
            jsq2: 13,
        };
        self.regs.ier = Ier { jeosie: true };
    }

    /// Diagnostic one-shot average of the requested channel under the
    /// save/restore pattern; used at startup to establish the
    /// current-sensor zero offsets before the motor is energised.
    pub fn get_avg_reading(&mut self, chan: u16, samples: &Vec<u16>) -> (avg: u16)
        requires
            old(self).regs.phase() != AdcPhase::Running,
            chan <= 18,
            samples@.len() == ONE_SHOT_SAMPLES,
            forall|i: int| 0 <= i < samples@.len() ==> samples@[i] <= ADC_FULL_SCALE,
        ensures
            final(self).regs.smpr2 == old(self).regs.smpr2,
            final(self).regs.sqr1 == old(self).regs.sqr1,
            final(self).regs.cfgr == old(self).regs.cfgr,
            final(self).regs.cfgr2 == old(self).regs.cfgr2,
            final(self).regs.ier == old(self).regs.ier,
            final(self).regs.aden,
            final(self).vref_cal_uv == old(self).vref_cal_uv,
            final(self).dr_addr == old(self).dr_addr,
            avg == spec_sum(samples@) / ONE_SHOT_SAMPLES as int,
            avg <= ADC_FULL_SCALE,
    {
        self.regs.one_shot_average(chan, samples)
    }

    /// Start production conversions, enabling the converter first if it
    /// is not yet enabled; regular and injected starts are set in one
    /// register write.
    pub fn start(&mut self)
        requires
            old(self).regs.phase() == AdcPhase::Ready,
        ensures
            final(self).regs == (AdcRegs {
                aden: true,
                adrdy: old(self).regs.aden && old(self).regs.adrdy,
                adstart: true,
                jadstart: true,
                ..old(self).regs
            }),
            final(self).regs.phase() == AdcPhase::Running,
            final(self).vref_cal_uv == old(self).vref_cal_uv,
            final(self).dr_addr == old(self).dr_addr,
    {
        self.regs.enable();
        self.regs.start();
    }

    /// The fixed address of the regular data register, used only to bind
    /// the DMA channel's source.
    pub fn dr(&self) -> (addr: u32)
        ensures
            addr == self.dr_addr,
    {
        self.dr_addr
    }

    /// Clear the injected end-of-sequence interrupt flag.
    pub fn clear_jeos(&mut self)
        ensures
            final(self).regs == (AdcRegs { jeos: false, ..old(self).regs }),
            final(self).vref_cal_uv == old(self).vref_cal_uv,
            final(self).dr_addr == old(self).dr_addr,
    {
        self.regs.clear_jeos();
    }

    /// Read the injected end-of-sequence interrupt flag.
    pub fn read_jeos(&self) -> (set: bool)
        ensures
            set == self.regs.jeos,
    {
        self.regs.read_jeos()
    }

    /// Read the raw injected phase-current code.
    pub fn get_inj_data(&self) -> (code: u16)
        ensures
            code == self.regs.jdr1,
    {
        self.regs.get_inj_data()
    }
}

/// ADC unit 2: samples the other phase current on its injected channels
/// and streams the bus-voltage channel over DMA. Only unit 1 carries the
/// reference calibration, since only one reference channel exists on the
/// package.
pub struct Adc2 {
    pub regs: AdcRegs,
    /// Unused on this unit; the reference channel is only on unit 1.
    pub vref_cal_uv: u64,
    /// Address of the regular data register, used only to bind the DMA
    /// source; never dereferenced by this model.
    pub dr_addr: u32,
}

impl Adc2 {
    /// Take ownership of the unit with its register block in reset state.
    pub fn new(dr_addr: u32) -> (adc: Adc2)
        ensures
            adc.regs == AdcRegs::spec_reset(),
            adc.vref_cal_uv == 0,
            adc.dr_addr == dr_addr,
    {
        Adc2 { regs: AdcRegs::new(), vref_cal_uv: 0, dr_addr }
    }

    /// Bring the unit from reset to Ready for production: power the
    /// regulator up, self-calibrate single-ended, then program the
    /// production sequences — the bus-voltage channel repeated as the
    /// whole DMA-streamed regular sequence and the phase-current channel
    /// sampled back-to-back as the injected pair on the PWM generator's
    /// trigger with the overwrite overrun policy. Between the register
    /// steps the shell waits, bounded, on the regulator-ready and
    /// calibration-done handshakes.
    pub fn setup(&mut self)
        requires
            old(self).regs == AdcRegs::spec_reset(),
        ensures
            final(self).regs.cfgr == spec_adc1_cfgr(),
            final(self).regs.cfgr2 == 0,
            final(self).regs.smpr1 == (Smpr1 { smp3: 0, smp4: SMP_24_5_CYCLES }),
            final(self).regs.smpr2 == (Smpr2 { smp13: 0, smp16: SMP_2_5_CYCLES, smp18: 0 }),
            final(self).regs.sqr1 == (Sqr1 { l: 7, sq1: 1, sq2: 1, sq3: 1, sq4: 1 }),
            final(self).regs.sqr2 == (Sqr2 { sq5: 1, sq6: 1, sq7: 1, sq8: 1 }),
            final(self).regs.jsqr == (Jsqr {
                jl: 1,
                jextsel: JEXTSEL_TIM1_TRGO,
                jexten_rising: true,
                jsq1: 16,
                jsq2: 16,
            }),
            final(self).regs.ier == (Ier { jeosie: false }),
            final(self).regs.phase() == AdcPhase::Ready,
            final(self).vref_cal_uv == old(self).vref_cal_uv,
            final(self).dr_addr == old(self).dr_addr,
    {
        self.regs.power_up();
        // Shell: bounded wait for the regulator handshake, then the fixed
        // settle delay.
        self.regs.start_calibration();
        // Shell: bounded poll until hardware clears the calibration bit.
        self.regs.calibration_done_event();

        // Production configuration.
        self.regs.cfgr = Cfgr {
            jqdis: true,
            dmaen: true,
            dmacfg_circular: true,
            ovrmod_overwrite: true,
            extsel: EXTSEL_TIM1_TRGO2,
            exten_rising: true,
        };
        self.regs.cfgr2 = 0;
        // Long sampling for the bus-voltage divider, shortest for the
        // phase current behind the amplifier.
        self.regs.smpr1 = Smpr1 { smp3: 0, smp4: SMP_24_5_CYCLES };
        self.regs.smpr2 = Smpr2 { smp13: 0, smp16: SMP_2_5_CYCLES, smp18: 0 };
        // Regular sequence: the bus-voltage channel, repeated.
        self.regs.sqr1 = Sqr1 { l: 7, sq1: 1, sq2: 1, sq3: 1, sq4: 1 };
        self.regs.sqr2 = Sqr2 { sq5: 1, sq6: 1, sq7: 1, sq8: 1 };
        // Injected pair: the phase-current channel back-to-back on the PWM
        // generator's trigger.
        self.regs.jsqr = Jsqr {
            jl: 1,
            jextsel: JEXTSEL_TIM1_TRGO,
            jexten_rising: true,
            jsq1: 16,
            jsq2: 16,
        };
    }

    /// Diagnostic one-shot average of the requested channel under the
    /// save/restore pattern.
    pub fn get_avg_reading(&mut self, chan: u16, samples: &Vec<u16>) -> (avg: u16)
        requires
            old(self).regs.phase() != AdcPhase::Running,
            chan <= 18,
            samples@.len() == ONE_SHOT_SAMPLES,
            forall|i: int| 0 <= i < samples@.len() ==> samples@[i] <= ADC_FULL_SCALE,
        ensures
            final(self).regs.smpr2 == old(self).regs.smpr2,
            final(self).regs.sqr1 == old(self).regs.sqr1,
            final(self).regs.cfgr == old(self).regs.cfgr,
            final(self).regs.cfgr2 == old(self).regs.cfgr2,
            final(self).regs.ier == old(self).regs.ier,
            final(self).regs.aden,
            final(self).vref_cal_uv == old(self).vref_cal_uv,
            final(self).dr_addr == old(self).dr_addr,
            avg == spec_sum(samples@) / ONE_SHOT_SAMPLES as int,
            avg <= ADC_FULL_SCALE,
    {
        self.regs.one_shot_average(chan, samples)
    }

    /// Start production conversions, enabling the converter first if it
    /// is not yet enabled; regular and injected starts are set in one
    /// register write.
    pub fn start(&mut self)
        requires
            old(self).regs.phase() == AdcPhase::Ready,
        ensures
            final(self).regs == (AdcRegs {
                aden: true,
                adrdy: old(self).regs.aden && old(self).regs.adrdy,
                adstart: true,
                jadstart: true,
                ..old(self).regs
            }),
            final(self).regs.phase() == AdcPhase::Running,
            final(self).vref_cal_uv == old(self).vref_cal_uv,
            final(self).dr_addr == old(self).dr_addr,
    {
        self.regs.enable();
        self.regs.start();
    }

    /// The fixed address of the regular data register, used only to bind
    /// the DMA channel's source.
    pub fn dr(&self) -> (addr: u32)
        ensures
            addr == self.dr_addr,
    {
        self.dr_addr
    }

    /// Clear the injected end-of-sequence interrupt flag.
    pub fn clear_jeos(&mut self)
        ensures
            final(self).regs == (AdcRegs { jeos: false, ..old(self).regs }),
            final(self).vref_cal_uv == old(self).vref_cal_uv,
            final(self).dr_addr == old(self).dr_addr,
    {
        self.regs.clear_jeos();
    }

    /// Read the injected end-of-sequence interrupt flag.
    pub fn read_jeos(&self) -> (set: bool)
        ensures
            set == self.regs.jeos,
    {
        self.regs.read_jeos()
    }

    /// Read the raw injected phase-current code.
    pub fn get_inj_data(&self) -> (code: u16)
        ensures
            code == self.regs.jdr1,
    {
        self.regs.get_inj_data()
    }
}

} // verus!
