//! Three-phase PWM generator: a register-transfer model of the advanced
//! timer used to drive the bridge.
//!
//! The model tracks every timer register the driver touches. Compare
//! registers are preload-protected: a software write lands in the preload
//! register and becomes active only when an update event latches it, which
//! is what makes duty updates glitch-free. The firmware shell mirrors each
//! operation onto the memory-mapped timer block; every register value is
//! computed and sequenced here.

use vstd::prelude::*;
use vstd::arithmetic::div_mod::lemma_multiply_divide_le;
use vstd::arithmetic::mul::lemma_mul_inequality;

verus! {

/// Output-compare mode of one timer channel.
///
/// `PwmMode1` is active while counting up and inactive while counting down,
/// which in centre-aligned counting yields symmetric, low-harmonic pulses.
#[derive(Clone, Copy, PartialEq, Eq, Structural, Debug)]
pub enum OcMode {
    /// Reset state: the channel output is frozen.
    Frozen,
    /// PWM mode 1: active while counting up, inactive while counting down.
    PwmMode1,
}

/// One output-compare channel with its preload-protected compare register.
#[derive(Clone, Copy, PartialEq, Eq, Structural, Debug)]
pub struct OcChannel {
    pub mode: OcMode,
    /// Preload enable: writes take effect only at the next update event.
    pub preload: bool,
    /// Compare value written by software, pending until the next update.
    pub ccr_preload: u32,
    /// Compare value the waveform hardware currently acts on.
    pub ccr_active: u32,
}

impl OcChannel {
    /// Reset state of a compare channel.
    pub open spec fn spec_reset() -> OcChannel {
        OcChannel { mode: OcMode::Frozen, preload: false, ccr_preload: 0, ccr_active: 0 }
    }

    /// The compare value after an update event: the preload value if preload
    /// is enabled, otherwise whatever is already active.
    pub open spec fn spec_latched(self) -> OcChannel {
        OcChannel {
            ccr_active: if self.preload {
                self.ccr_preload
            } else {
                self.ccr_active
            },
            ..self
        }
    }

    /// A software write to the compare register. With preload enabled only
    /// the preload register changes; the active value is untouched.
    pub open spec fn spec_write_ccr(self, value: u32) -> OcChannel {
        if self.preload {
            OcChannel { ccr_preload: value, ..self }
        } else {
            OcChannel { ccr_preload: value, ccr_active: value, ..self }
        }
    }

    /// A software write to the compare register.
    fn write_ccr(self, value: u32) -> (written: OcChannel)
        ensures
            written == self.spec_write_ccr(value),
    {
        if self.preload {
            OcChannel { ccr_preload: value, ..self }
        } else {
            OcChannel { ccr_preload: value, ccr_active: value, ..self }
        }
    }

    /// Latch the channel, as hardware does at an update event.
    fn latch(self) -> (latched: OcChannel)
        ensures
            latched == self.spec_latched(),
    {
        OcChannel {
            ccr_active: if self.preload {
                self.ccr_preload
            } else {
                self.ccr_active
            },
            ..self
        }
    }
}

/// Register-transfer model of the advanced timer configured as a
/// three-phase, centre-aligned, complementary PWM generator.
pub struct PwmTim {
    /// Counter enable (CR1.CEN).
    pub cen: bool,
    /// One-pulse mode (CR1.OPM).
    pub opm: bool,
    /// Centre-aligned mode selection (CR1.CMS); 1 selects up/down counting.
    pub cms: u8,
    /// Master mode selection driving the first trigger output (CR2.MMS).
    pub mms: u8,
    /// Master mode selection driving the second trigger output (CR2.MMS2).
    pub mms2: u8,
    /// Auto-reload register: the period in ticks minus one.
    pub arr: u32,
    /// Prescaler; zero runs the counter at the full timer clock.
    pub psc: u32,
    /// Repetition counter: 1 makes update events fire once per full
    /// up/down cycle instead of once per half-period.
    pub rcr: u32,
    /// Current counter value.
    pub cnt: u32,
    /// The three phase-leg compare channels.
    pub ch1: OcChannel,
    pub ch2: OcChannel,
    pub ch3: OcChannel,
    /// Trigger channel fired during down-counting just after reload.
    pub ch4: OcChannel,
    /// Alternate trigger channel fired near zero.
    pub ch5: OcChannel,
    /// Output enables for the three high-side and three low-side legs
    /// (CCER.CC1E..CC3NE).
    pub cc1e: bool,
    pub cc1ne: bool,
    pub cc2e: bool,
    pub cc2ne: bool,
    pub cc3e: bool,
    pub cc3ne: bool,
    /// Dead-time generator setting (BDTR.DTG), in timer ticks.
    pub dtg: u8,
    /// Off-state selection: force outputs low while the master output
    /// enable is clear (BDTR.OSSI).
    pub ossi: bool,
    /// Master output enable: gates all physical pin drive (BDTR.MOE).
    pub moe: bool,
    /// Update interrupt flag (SR.UIF).
    pub uif: bool,
    /// Update and break interrupt enables (DIER.UIE, DIER.BIE).
    pub uie: bool,
    pub bie: bool,
}

/// A requested duty fraction in `[0, 65536)` scaled to a compare value in
/// `[0, arr]`.
pub open spec fn spec_scaled_duty(req: int, arr: int) -> int {
    req * arr / 65536
}

/// Duty clamp: scaling any requested fraction below 65536 to any period
/// keeps the compare value within `[0, arr]`, so a compare register can
/// never be programmed beyond the auto-reload value.
pub proof fn lemma_duty_clamp(req: int, arr: int)
    requires
        0 <= req < 65536,
        0 <= arr,
    ensures
        0 <= spec_scaled_duty(req, arr) <= arr,
{
    lemma_mul_inequality(req, 65536, arr);
    lemma_multiply_divide_le(req * arr, 65536, arr);
    assert(0 <= req * arr) by (nonlinear_arith)
        requires
            0 <= req,
            0 <= arr,
    ;
    vstd::arithmetic::div_mod::lemma_div_is_ordered(0, req * arr, 65536);
}

impl PwmTim {
    /// Reset state of the timer block.
    pub open spec fn spec_reset() -> PwmTim {
        PwmTim {
            cen: false,
            opm: false,
            cms: 0,
            mms: 0,
            mms2: 0,
            arr: 0,
            psc: 0,
            rcr: 0,
            cnt: 0,
            ch1: OcChannel::spec_reset(),
            ch2: OcChannel::spec_reset(),
            ch3: OcChannel::spec_reset(),
            ch4: OcChannel::spec_reset(),
            ch5: OcChannel::spec_reset(),
            cc1e: false,
            cc1ne: false,
            cc2e: false,
            cc2ne: false,
            cc3e: false,
            cc3ne: false,
            dtg: 0,
            ossi: false,
            moe: false,
            uif: false,
            uie: false,
            bie: false,
        }
    }

    /// Duty-cycle well-formedness: each phase-leg compare value, pending or
    /// active, lies in `[0, period]`, and the period fits the 16-bit
    /// counter.
    pub open spec fn duty_wf(self) -> bool {
        &&& self.arr < 65536
        &&& self.ch1.ccr_preload <= self.arr
        &&& self.ch1.ccr_active <= self.arr
        &&& self.ch2.ccr_preload <= self.arr
        &&& self.ch2.ccr_active <= self.arr
        &&& self.ch3.ccr_preload <= self.arr
        &&& self.ch3.ccr_active <= self.arr
    }

    /// The timer is configured for three-phase PWM as the bridge requires:
    /// centre-aligned counting, one update per full period, PWM mode 1 with
    /// preload on all three phase legs, complementary outputs enabled, a
    /// non-zero dead time, and outputs forced low while the master output
    /// enable is clear.
    pub open spec fn configured(self) -> bool {
        &&& self.cms == 1
        &&& self.psc == 0
        &&& self.rcr == 1
        &&& self.ch1.mode == OcMode::PwmMode1 && self.ch1.preload
        &&& self.ch2.mode == OcMode::PwmMode1 && self.ch2.preload
        &&& self.ch3.mode == OcMode::PwmMode1 && self.ch3.preload
        &&& self.cc1e && self.cc1ne && self.cc2e && self.cc2ne && self.cc3e && self.cc3ne
        &&& self.dtg > 0
        &&& self.ossi
    }

    /// The timer state after an update event: every preload-protected
    /// compare register is latched into its active register and the update
    /// flag is raised. Nothing else changes.
    pub open spec fn spec_update_event(self) -> PwmTim {
        PwmTim {
            ch1: self.ch1.spec_latched(),
            ch2: self.ch2.spec_latched(),
            ch3: self.ch3.spec_latched(),
            ch4: self.ch4.spec_latched(),
            ch5: self.ch5.spec_latched(),
            uif: true,
            ..self
        }
    }

    /// The timer state after a duty write: the three phase-leg preload
    /// registers take the scaled values; active values are untouched.
    pub open spec fn spec_set_duty(self, ch1: u32, ch2: u32, ch3: u32) -> PwmTim {
        PwmTim {
            ch1: self.ch1.spec_write_ccr(spec_scaled_duty(ch1 as int, self.arr as int) as u32),
            ch2: self.ch2.spec_write_ccr(spec_scaled_duty(ch2 as int, self.arr as int) as u32),
            ch3: self.ch3.spec_write_ccr(spec_scaled_duty(ch3 as int, self.arr as int) as u32),
            ..self
        }
    }

    /// The duty the waveform hardware is acting on right now: the active
    /// compare values of the three phase legs.
    pub open spec fn spec_observed_duty(self) -> (u32, u32, u32) {
        (self.ch1.ccr_active, self.ch2.ccr_active, self.ch3.ccr_active)
    }

    /// Create a new timer driver over a timer block in reset state.
    pub fn new() -> (tim: PwmTim)
        ensures
            tim == PwmTim::spec_reset(),
    {
        PwmTim {
            cen: false,
            opm: false,
            cms: 0,
            mms: 0,
            mms2: 0,
            arr: 0,
            psc: 0,
            rcr: 0,
            cnt: 0,
            ch1: OcChannel { mode: OcMode::Frozen, preload: false, ccr_preload: 0, ccr_active: 0 },
            ch2: OcChannel { mode: OcMode::Frozen, preload: false, ccr_preload: 0, ccr_active: 0 },
            ch3: OcChannel { mode: OcMode::Frozen, preload: false, ccr_preload: 0, ccr_active: 0 },
            ch4: OcChannel { mode: OcMode::Frozen, preload: false, ccr_preload: 0, ccr_active: 0 },
            ch5: OcChannel { mode: OcMode::Frozen, preload: false, ccr_preload: 0, ccr_active: 0 },
            cc1e: false,
            cc1ne: false,
            cc2e: false,
            cc2ne: false,
            cc3e: false,
            cc3ne: false,
            dtg: 0,
            ossi: false,
            moe: false,
            uif: false,
            uie: false,
            bie: false,
        }
    }

    /// Start the timer running by setting the counter-enable bit.
    pub fn start(&mut self)
        ensures
            *final(self) == (PwmTim { cen: true, ..*old(self) }),
    {
        self.cen = true;
    }

    /// Gate the physical pin drive on by setting the master-output-enable
    /// bit. Must only be called once configuration, in particular the
    /// dead-time value, is in place, otherwise the bridge may glitch.
    pub fn motor_on(&mut self)
        requires
            old(self).configured(),
        ensures
            *final(self) == (PwmTim { moe: true, ..*old(self) }),
    {
        self.moe = true;
    }

    /// Stop the timer and rewind the counter. The counter is written only
    /// after the enable bit is cleared, so the reload value is never torn.
    pub fn stop(&mut self)
        ensures
            *final(self) == (PwmTim { cen: false, cnt: 0, ..*old(self) }),
    {
        self.cen = false;
        self.cnt = 0;
    }

    /// Start the timer in one-pulse mode for a period of `ticks`. The
    /// auto-reload register is written while the counter is disabled.
    pub fn start_oneshot(&mut self, ticks: u32)
        requires
            !old(self).cen,
            ticks < 65536,
            old(self).ch1.ccr_preload <= ticks,
            old(self).ch1.ccr_active <= ticks,
            old(self).ch2.ccr_preload <= ticks,
            old(self).ch2.ccr_active <= ticks,
            old(self).ch3.ccr_preload <= ticks,
            old(self).ch3.ccr_active <= ticks,
        ensures
            *final(self) == (PwmTim { arr: ticks, cen: true, opm: true, ..*old(self) }),
            final(self).duty_wf(),
    {
        self.arr = ticks;
        self.cen = true;
        self.opm = true;
    }

    /// Clear the update interrupt flag.
    pub fn clear_uif(&mut self)
        ensures
            *final(self) == (PwmTim { uif: false, ..*old(self) }),
    {
        self.uif = false;
    }

    /// An update event: hardware latches every preload-protected compare
    /// register and raises the update flag. In centre-aligned mode with a
    /// repetition count of 1 this happens exactly once per full PWM period.
    #[verifier::rlimit(50)]
    pub fn update_event(&mut self)
        ensures
            *final(self) == old(self).spec_update_event(),
    {
        self.ch1 = self.ch1.latch();
        self.ch2 = self.ch2.latch();
        self.ch3 = self.ch3.latch();
        self.ch4 = self.ch4.latch();
        self.ch5 = self.ch5.latch();
        self.uif = true;
        proof {
            assert(self.ch1 == old(self).ch1.spec_latched());
            assert(self.ch2 == old(self).ch2.spec_latched());
            assert(self.ch3 == old(self).ch3.spec_latched());
            assert(self.ch4 == old(self).ch4.spec_latched());
            assert(self.ch5 == old(self).ch5.spec_latched());
        }
    }

    /// The duty values the waveform hardware is acting on right now.
    pub fn observed_duty(&self) -> (duty: (u32, u32, u32))
        ensures
            duty == self.spec_observed_duty(),
    {
        (self.ch1.ccr_active, self.ch2.ccr_active, self.ch3.ccr_active)
    }

    /// The full register image `setup_bldc_pwm` leaves behind for a given
    /// period, except for the counter value, which it never touches.
    pub open spec fn spec_bldc_config(period: u32) -> PwmTim {
        PwmTim {
            cen: true,
            opm: false,
            cms: 1,
            mms: 7,
            mms2: 8,
            arr: (period - 1) as u32,
            psc: 0,
            rcr: 1,
            cnt: 0,
            ch1: OcChannel { mode: OcMode::PwmMode1, preload: true, ccr_preload: 0, ccr_active: 0 },
            ch2: OcChannel { mode: OcMode::PwmMode1, preload: true, ccr_preload: 0, ccr_active: 0 },
            ch3: OcChannel { mode: OcMode::PwmMode1, preload: true, ccr_preload: 0, ccr_active: 0 },
            ch4: OcChannel {
                mode: OcMode::PwmMode1,
                preload: true,
                ccr_preload: (period - 2) as u32,
                ccr_active: (period - 2) as u32,
            },
            ch5: OcChannel { mode: OcMode::PwmMode1, preload: true, ccr_preload: 1, ccr_active: 1 },
            cc1e: true,
            cc1ne: true,
            cc2e: true,
            cc2ne: true,
            cc3e: true,
            cc3ne: true,
            dtg: 85,
            ossi: true,
            moe: false,
            uif: false,
            uie: true,
            bie: true,
        }
    }

    /// Program the time base: counter disabled, auto-reload set to
    /// `period - 1` (written only while the counter is off, so the reload
    /// can never tear), no prescaling, centre-aligned counting, and a
    /// repetition count of 1 so update events fire once per full period.
    fn configure_time_base(&mut self, period: u32)
        requires
            2 <= period <= 65536,
        ensures
            *final(self) == (PwmTim {
                cen: false,
                opm: false,
                cms: 1,
                mms: 7,
                mms2: 8,
                arr: (period - 1) as u32,
                psc: 0,
                rcr: 1,
                ..*old(self)
            }),
    {
        self.cen = false;
        self.opm = false;
        self.mms = 0;
        self.mms2 = 0;
        self.arr = period - 1;
        self.psc = 0;
        self.rcr = 1;
        self.cms = 1;
        // Route the down-counting trigger channels to the two trigger
        // outputs that start the injected ADC conversions.
        self.mms = 7;
        self.mms2 = 8;
    }

    /// Put all five compare channels into PWM mode 1 with preload enabled,
    /// so compare writes take effect only at the next update event.
    fn configure_compare_modes(&mut self)
        ensures
            *final(self) == (PwmTim {
                ch1: OcChannel { mode: OcMode::PwmMode1, preload: true, ..old(self).ch1 },
                ch2: OcChannel { mode: OcMode::PwmMode1, preload: true, ..old(self).ch2 },
                ch3: OcChannel { mode: OcMode::PwmMode1, preload: true, ..old(self).ch3 },
                ch4: OcChannel { mode: OcMode::PwmMode1, preload: true, ..old(self).ch4 },
                ch5: OcChannel { mode: OcMode::PwmMode1, preload: true, ..old(self).ch5 },
                ..*old(self)
            }),
    {
        self.ch1.mode = OcMode::PwmMode1;
        self.ch1.preload = true;
        self.ch2.mode = OcMode::PwmMode1;
        self.ch2.preload = true;
        self.ch3.mode = OcMode::PwmMode1;
        self.ch3.preload = true;
        self.ch4.mode = OcMode::PwmMode1;
        self.ch4.preload = true;
        self.ch5.mode = OcMode::PwmMode1;
        self.ch5.preload = true;
    }

    /// Enable the complementary high/low outputs of the three phase legs
    /// and program the break/dead-time register: dead time of 85 ticks
    /// (500 ns at a 170 MHz timer clock), outputs forced low while the
    /// master output enable is clear, and the master output disabled.
    fn configure_outputs(&mut self)
        ensures
            *final(self) == (PwmTim {
                cc1e: true,
                cc1ne: true,
                cc2e: true,
                cc2ne: true,
                cc3e: true,
                cc3ne: true,
                dtg: 85,
                ossi: true,
                moe: false,
                ..*old(self)
            }),
    {
        self.cc1e = true;
        self.cc1ne = true;
        self.cc2e = true;
        self.cc2ne = true;
        self.cc3e = true;
        self.cc3ne = true;
        self.dtg = 85;
        self.ossi = true;
        self.moe = false;
    }

    /// Configure the timer for three-phase PWM generation.
    ///
    /// Disables the counter, programs the time base for centre-aligned
    /// counting over `period` ticks, puts the three phase legs and the two
    /// trigger channels into preloaded PWM mode 1, enables the
    /// complementary outputs with dead time, programs the phase duties to
    /// zero and the trigger compare points (one just after reload during
    /// down-counting, one near zero), latches everything with a software
    /// update, and starts the counter with the update and break interrupts
    /// enabled. The master output stays disabled until `motor_on`.
    pub fn setup_bldc_pwm(&mut self, period: u32)
        requires
            2 <= period <= 65536,
        ensures
            *final(self) == (PwmTim { cnt: old(self).cnt, ..PwmTim::spec_bldc_config(period) }),
            final(self).configured(),
            final(self).duty_wf(),
            !final(self).moe,
    {
        self.configure_time_base(period);
        self.configure_compare_modes();
        self.configure_outputs();
        // Zero the three phase duties and set the two trigger points.
        self.ch1.ccr_preload = 0;
        self.ch2.ccr_preload = 0;
        self.ch3.ccr_preload = 0;
        self.ch4.ccr_preload = period - 2;
        self.ch5.ccr_preload = 1;
        // Generate a software update to latch the preloaded registers.
        self.update_event();
        // Start the PWM output and unmask the update and break interrupts.
        self.cen = true;
        self.uif = false;
        self.uie = true;
        self.bie = true;
    }

    /// Rewrite the three phase duty cycles, each a fraction of the period
    /// requested in `[0, 65536)` and scaled to `[0, arr]`. The writes land
    /// in the preload registers, so the waveform keeps the old duty until
    /// the next update event: duty changes are glitch-free.
    pub fn set_bldc_pwm(&mut self, ch1: u32, ch2: u32, ch3: u32)
        requires
            old(self).duty_wf(),
            ch1 < 65536,
            ch2 < 65536,
            ch3 < 65536,
        ensures
            *final(self) == old(self).spec_set_duty(ch1, ch2, ch3),
            final(self).duty_wf(),
    {
        let arr = self.arr;
        proof {
            lemma_duty_clamp(ch1 as int, arr as int);
            lemma_duty_clamp(ch2 as int, arr as int);
            lemma_duty_clamp(ch3 as int, arr as int);
            assert(ch1 * arr <= 65535 * 65535) by (nonlinear_arith)
                requires
                    ch1 <= 65535,
                    arr <= 65535,
            ;
            assert(ch2 * arr <= 65535 * 65535) by (nonlinear_arith)
                requires
                    ch2 <= 65535,
                    arr <= 65535,
            ;
            assert(ch3 * arr <= 65535 * 65535) by (nonlinear_arith)
                requires
                    ch3 <= 65535,
                    arr <= 65535,
            ;
        }
        self.ch1 = self.ch1.write_ccr(ch1 * arr / 65536);
        self.ch2 = self.ch2.write_ccr(ch2 * arr / 65536);
        self.ch3 = self.ch3.write_ccr(ch3 * arr / 65536);
    }
}

/// Latching an update event keeps every phase duty within the period.
pub proof fn lemma_update_preserves_duty_wf(s: PwmTim)
    requires
        s.duty_wf(),
    ensures
        s.spec_update_event().duty_wf(),
{
}

/// Glitch-free duty update: a duty write at an arbitrary point in a period
/// leaves the observed duty unchanged, and the new scaled duty takes effect
/// exactly at the next update event — so a write is applied no later than
/// one PWM period after it is issued.
pub proof fn lemma_set_duty_glitch_free(s: PwmTim, ch1: u32, ch2: u32, ch3: u32)
    requires
        s.configured(),
        s.duty_wf(),
        ch1 < 65536,
        ch2 < 65536,
        ch3 < 65536,
    ensures
        s.spec_set_duty(ch1, ch2, ch3).spec_observed_duty() == s.spec_observed_duty(),
        s.spec_set_duty(ch1, ch2, ch3).spec_update_event().spec_observed_duty() == (
            spec_scaled_duty(ch1 as int, s.arr as int) as u32,
            spec_scaled_duty(ch2 as int, s.arr as int) as u32,
            spec_scaled_duty(ch3 as int, s.arr as int) as u32,
        ),
{
    lemma_duty_clamp(ch1 as int, s.arr as int);
    lemma_duty_clamp(ch2 as int, s.arr as int);
    lemma_duty_clamp(ch3 as int, s.arr as int);
}

} // verus!
