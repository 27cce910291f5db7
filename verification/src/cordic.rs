//! CORDIC transform engine: a model of the fixed-point sine/cosine
//! accelerator's two-register request/response pipeline.
//!
//! The engine takes one Q31 angle (native unit: one full turn over
//! `[-1, 1)`) through its write register and answers with exactly two
//! output reads, sine first, cosine second. The model tracks the
//! configuration register and how many output reads are owed, which is
//! the protocol that makes the immediate and the deferred calling
//! conventions safe: reading with nothing pending or writing while reads
//! are owed would desynchronise the pipeline. The result codes themselves
//! are produced by the accelerator hardware; the shell reads them from the
//! output register and hands them in.

use vstd::prelude::*;

verus! {

/// Function selector value for sine (CSR.FUNC).
pub const CORDIC_FUNC_SINE: u8 = 1;

/// Precision selector: 20 iterations (CSR.PRECISION).
pub const CORDIC_PRECISION: u8 = 5;

/// Register-transfer model of the CORDIC engine.
pub struct Cordic {
    /// Configured function (CSR.FUNC).
    pub func: u8,
    /// Configured precision (CSR.PRECISION).
    pub precision: u8,
    /// Number of argument writes per calculation (CSR.NARGS).
    pub nargs: u8,
    /// Number of result reads per calculation (CSR.NRES).
    pub nres: u8,
    /// Output reads still owed for the calculation in flight.
    pub pending_reads: u8,
    /// The Q31 angle most recently written.
    pub last_theta: i32,
}

impl Cordic {
    /// Ready for the production calling convention: sine/cosine at the
    /// fixed precision, one argument in, two results out, pipeline idle.
    pub open spec fn ready(self) -> bool {
        &&& self.func == CORDIC_FUNC_SINE
        &&& self.precision == CORDIC_PRECISION
        &&& self.nargs == 1
        &&& self.nres == 2
        &&& self.pending_reads == 0
    }

    /// A calculation is in flight: both result reads are still owed.
    pub open spec fn result_pending(self) -> bool {
        &&& self.func == CORDIC_FUNC_SINE
        &&& self.precision == CORDIC_PRECISION
        &&& self.nargs == 1
        &&& self.nres == 2
        &&& self.pending_reads == 2
    }

    /// Take ownership of the engine in its reset state.
    pub fn new() -> (cordic: Cordic)
        ensures
            cordic.func == 0,
            cordic.precision == 0,
            cordic.nargs == 0,
            cordic.nres == 0,
            cordic.pending_reads == 0,
            cordic.last_theta == 0,
    {
        Cordic { func: 0, precision: 0, nargs: 0, nres: 0, pending_reads: 0, last_theta: 0 }
    }

    /// Configure the engine for sine/cosine: program two-argument,
    /// two-result mode at the fixed precision, push one dummy argument
    /// pair through the pipeline, discard both dummy outputs, then switch
    /// to the single-argument production convention.
    pub fn init(&mut self)
        ensures
            final(self).ready(),
            final(self).last_theta == old(self).last_theta,
    {
        self.func = CORDIC_FUNC_SINE;
        self.precision = CORDIC_PRECISION;
        self.nargs = 2;
        self.nres = 2;
        // Dummy calculation: one argument pair in, two results owed.
        self.pending_reads = 2;
        // Both dummy outputs read back and discarded.
        self.pending_reads = 0;
        // Production convention: a single argument per calculation.
        self.nargs = 1;
    }

    /// Deferred convention, first half: write the Q31 angle now and return
    /// without waiting. The two result reads are owed from the next tick,
    /// trading one tick of phase delay for an unblocked hot path.
    pub fn calc_sin_cos_deferred(&mut self, theta: i32)
        requires
            old(self).ready(),
        ensures
            *final(self) == (Cordic { pending_reads: 2, last_theta: theta, ..*old(self) }),
            final(self).result_pending(),
    {
        self.last_theta = theta;
        self.pending_reads = 2;
    }

    /// Deferred convention, second half: collect the sine and cosine codes
    /// for the angle written earlier. The shell performs the two output
    /// register reads, sine first, cosine second, and hands the codes in;
    /// afterwards the pipeline is idle again.
    pub fn get_result(&mut self, rdata_first: i32, rdata_second: i32) -> (sin_cos: (i32, i32))
        requires
            old(self).result_pending(),
        ensures
            *final(self) == (Cordic { pending_reads: 0, ..*old(self) }),
            final(self).ready(),
            sin_cos == (rdata_first, rdata_second),
    {
        self.pending_reads = 0;
        (rdata_first, rdata_second)
    }

    /// Immediate convention: write the Q31 angle and collect both results
    /// in one call, leaving the pipeline idle.
    pub fn calc_sin_cos(&mut self, theta: i32, rdata_first: i32, rdata_second: i32) -> (sin_cos: (
        i32,
        i32,
    ))
        requires
            old(self).ready(),
        ensures
            *final(self) == (Cordic { last_theta: theta, ..*old(self) }),
            final(self).ready(),
            sin_cos == (rdata_first, rdata_second),
    {
        self.calc_sin_cos_deferred(theta);
        self.get_result(rdata_first, rdata_second)
    }
}

} // verus!
