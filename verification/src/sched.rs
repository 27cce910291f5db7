//! Fixed-priority preemptive dispatch and the bounded-wait abstraction.
//!
//! Each interrupt source is bound to exactly one task with a static
//! priority; a higher-priority task always preempts a lower one. The
//! dispatch decision is a pure function from the pending flags to the
//! task that must run; the shell's vectored interrupt hardware realises
//! it. Steady-state handlers never block; the only waits in the system
//! are the one-time setup handshakes, each run under an explicit,
//! bounded retry budget so a failed handshake surfaces as a timeout
//! instead of a silent hang.

use vstd::prelude::*;

verus! {

/// The tasks of the core, one per interrupt source plus the background
/// task.
#[derive(Clone, Copy, PartialEq, Eq, Structural, Debug)]
pub enum Task {
    /// Injected-conversion-complete handler: drives the control loop.
    InjectedConversion,
    /// Transfer-complete handler for the first ADC's regular stream.
    Dma1Transfer,
    /// Transfer-complete handler for the second ADC's regular stream.
    Dma2Transfer,
    /// Background/idle task.
    Idle,
}

/// Static priority of each task; larger runs first.
pub open spec fn spec_priority(task: Task) -> int {
    match task {
        Task::InjectedConversion => 5,
        Task::Dma1Transfer => 4,
        Task::Dma2Transfer => 3,
        Task::Idle => 0,
    }
}

/// The pending interrupt flags the dispatcher decides over.
#[derive(Clone, Copy, PartialEq, Eq, Structural, Debug)]
pub struct PendingIrqs {
    /// Injected end-of-sequence raised and unmasked.
    pub injected_eos: bool,
    /// Transfer complete on the first stream's DMA channel.
    pub dma1_tc: bool,
    /// Transfer complete on the second stream's DMA channel.
    pub dma2_tc: bool,
}

/// Whether a task has work pending; the background task always has.
pub open spec fn spec_runnable(pending: PendingIrqs, task: Task) -> bool {
    match task {
        Task::InjectedConversion => pending.injected_eos,
        Task::Dma1Transfer => pending.dma1_tc,
        Task::Dma2Transfer => pending.dma2_tc,
        Task::Idle => true,
    }
}

/// The dispatch decision: of the runnable tasks, the one with the
/// highest static priority runs; the background task runs only when no
/// interrupt is pending.
pub fn next_task(pending: PendingIrqs) -> (task: Task)
    ensures
        spec_runnable(pending, task),
        forall|other: Task| spec_runnable(pending, other) ==> spec_priority(other) <= spec_priority(
            task,
        ),
        task == Task::Idle <==> !pending.injected_eos && !pending.dma1_tc && !pending.dma2_tc,
{
    if pending.injected_eos {
        Task::InjectedConversion
    } else if pending.dma1_tc {
        Task::Dma1Transfer
    } else if pending.dma2_tc {
        Task::Dma2Transfer
    } else {
        Task::Idle
    }
}

/// The one-time hardware handshakes that are ever waited on.
#[derive(Clone, Copy, PartialEq, Eq, Structural, Debug)]
pub enum WaitOp {
    /// The ADC's internal voltage regulator reports ready.
    RegulatorReady,
    /// The ADC's self-calibration bit clears.
    CalibrationDone,
    /// The ADC's ready flag after enabling.
    AdcReady,
    /// End of a blocking single-shot conversion.
    ConversionReady,
    /// A stopped DMA channel confirms idle.
    DmaIdle,
}

/// A failed handshake: the named operation did not complete within its
/// retry budget.
#[derive(Clone, Copy, PartialEq, Eq, Structural, Debug)]
pub struct HardwareTimeout {
    pub operation: WaitOp,
}

/// Outcome of one bounded poll step.
#[derive(Clone, Copy, PartialEq, Eq, Structural, Debug)]
pub enum PollStatus {
    /// The awaited flag was observed.
    Ready,
    /// Not yet; budget remains, poll again.
    Retry,
    /// Budget exhausted without the flag: a hardware timeout.
    TimedOut,
}

/// A bounded wait on one hardware handshake: at most `remaining` more
/// polls before the wait is declared failed.
pub struct BoundedWait {
    pub operation: WaitOp,
    pub remaining: u32,
}

impl BoundedWait {
    /// Start a bounded wait on the given handshake with the given number
    /// of polls allowed.
    pub fn new(operation: WaitOp, budget: u32) -> (wait: BoundedWait)
        ensures
            wait.operation == operation,
            wait.remaining == budget,
    {
        BoundedWait { operation, remaining: budget }
    }

    /// One poll step, deciding on the flag value the shell just read:
    /// done when the flag is set; otherwise retry while budget remains,
    /// spending one unit of it; otherwise a timeout. The budget never
    /// grows, so every such wait terminates.
    pub fn step(&mut self, flag_set: bool) -> (status: PollStatus)
        ensures
            final(self).operation == old(self).operation,
            flag_set ==> status == PollStatus::Ready && final(self).remaining == old(self).remaining,
            !flag_set && old(self).remaining > 0 ==> status == PollStatus::Retry
                && final(self).remaining == old(self).remaining - 1,
            !flag_set && old(self).remaining == 0 ==> status == PollStatus::TimedOut
                && final(self).remaining == 0,
            final(self).remaining <= old(self).remaining,
            status == PollStatus::Retry ==> final(self).remaining < old(self).remaining,
    {
        if flag_set {
            PollStatus::Ready
        } else if self.remaining > 0 {
            self.remaining = self.remaining - 1;
            PollStatus::Retry
        } else {
            PollStatus::TimedOut
        }
    }

    /// The error a timed-out wait raises: the failed handshake by name.
    pub fn timeout_error(&self) -> (err: HardwareTimeout)
        ensures
            err.operation == self.operation,
    {
        HardwareTimeout { operation: self.operation }
    }
}

} // verus!
