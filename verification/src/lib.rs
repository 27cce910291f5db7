//! Verified model of a field-oriented-control motor-drive core.
//!
//! The crate models the real-time sensing-and-actuation pipeline of a
//! three-phase brushless motor controller: the centre-aligned PWM generator,
//! the dual analog front end with its calibration sequences, the DMA channel
//! bookkeeping, the CORDIC sine/cosine pipeline, the stateless rotor-frame
//! transforms, and the fixed-priority interrupt dispatch that ties them
//! together.
//!
//! Every peripheral is represented by a register-transfer model: a struct of
//! plain register fields together with operations whose contracts state the
//! exact register sequencing the hardware requires. The firmware shell that
//! mirrors these models onto memory-mapped registers lives outside the
//! library; every decision and every computed register value is made here.

use vstd::prelude::*;

pub mod adc;
pub mod cordic;
pub mod dma;
pub mod foc;
pub mod q31;
pub mod rcc;
pub mod sched;
pub mod tim;

verus! {

/// Ticks needed for one full centre-aligned PWM carrier period.
///
/// In centre-aligned mode the counter counts up and then down once per
/// period, so the carrier frequency is the timer clock divided by twice the
/// programmed period.
pub fn carrier_freq_hz(tim_ck: u32, period_ticks: u32) -> (freq: u32)
    requires
        1 <= period_ticks <= 65536,
    ensures
        freq == tim_ck as int / (2 * period_ticks as int),
{
    tim_ck / (2 * period_ticks)
}

} // verus!
