//! Clock plan handed over by the clock-tree bring-up collaborator.
//!
//! The clock setup itself (PLL programming, voltage scaling, peripheral
//! clock gating) is outside this core; the core only consumes the resulting
//! frequencies when it converts times into tick counts.

use vstd::prelude::*;

verus! {

/// Frequencies for each clock in the system, in Hz.
#[derive(Clone, Copy, PartialEq, Eq, Structural, Debug)]
pub struct Clocks {
    pub sys_ck: u32,
    pub ahb_ck: u32,
    pub apb_ck: u32,
    pub tim_ck: u32,
}

impl Clocks {
    /// The clock plan produced by the boot sequence: PLL at 170 MHz with all
    /// bus prescalers at one, so every clock in the plan runs at 170 MHz.
    pub fn pll_170mhz() -> (clocks: Clocks)
        ensures
            clocks.sys_ck == 170_000_000,
            clocks.ahb_ck == 170_000_000,
            clocks.apb_ck == 170_000_000,
            clocks.tim_ck == 170_000_000,
    {
        Clocks { sys_ck: 170_000_000, ahb_ck: 170_000_000, apb_ck: 170_000_000, tim_ck: 170_000_000 }
    }
}

} // verus!
