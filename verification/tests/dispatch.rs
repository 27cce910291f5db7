use foc_core::cordic::Cordic;
use foc_core::dma::{DMAChannel, DMAMux, DMA};
use foc_core::rcc::Clocks;
use foc_core::sched::{next_task, BoundedWait, PendingIrqs, PollStatus, Task, WaitOp};

#[test]
fn clock_plan_is_170mhz_everywhere() {
    let clocks = Clocks::pll_170mhz();
    assert_eq!(clocks.sys_ck, 170_000_000);
    assert_eq!(clocks.ahb_ck, 170_000_000);
    assert_eq!(clocks.apb_ck, 170_000_000);
    assert_eq!(clocks.tim_ck, 170_000_000);
}

#[test]
fn dispatch_prefers_highest_priority() {
    let all = PendingIrqs { injected_eos: true, dma1_tc: true, dma2_tc: true };
    assert_eq!(next_task(all), Task::InjectedConversion);

    let dma_only = PendingIrqs { injected_eos: false, dma1_tc: true, dma2_tc: true };
    assert_eq!(next_task(dma_only), Task::Dma1Transfer);

    let dma2_only = PendingIrqs { injected_eos: false, dma1_tc: false, dma2_tc: true };
    assert_eq!(next_task(dma2_only), Task::Dma2Transfer);

    let none = PendingIrqs { injected_eos: false, dma1_tc: false, dma2_tc: false };
    assert_eq!(next_task(none), Task::Idle);
}

#[test]
fn bounded_wait_times_out_after_budget() {
    let mut wait = BoundedWait::new(WaitOp::RegulatorReady, 3);
    assert_eq!(wait.step(false), PollStatus::Retry);
    assert_eq!(wait.step(false), PollStatus::Retry);
    assert_eq!(wait.step(false), PollStatus::Retry);
    assert_eq!(wait.step(false), PollStatus::TimedOut);
    assert_eq!(wait.timeout_error().operation, WaitOp::RegulatorReady);
}

#[test]
fn bounded_wait_zero_budget_times_out_at_once() {
    let mut wait = BoundedWait::new(WaitOp::DmaIdle, 0);
    assert_eq!(wait.step(false), PollStatus::TimedOut);
    assert_eq!(wait.step(true), PollStatus::Ready);
}

#[test]
fn bounded_wait_ready_keeps_budget() {
    let mut wait = BoundedWait::new(WaitOp::CalibrationDone, 5);
    assert_eq!(wait.step(false), PollStatus::Retry);
    assert_eq!(wait.step(true), PollStatus::Ready);
    assert_eq!(wait.remaining, 4);
}

#[test]
fn cordic_pipeline_protocol() {
    let mut cordic = Cordic::new();
    cordic.init();
    assert_eq!(cordic.nargs, 1);
    assert_eq!(cordic.nres, 2);
    assert_eq!(cordic.pending_reads, 0);

    // Immediate convention: the sine code comes out first, then the
    // cosine code.
    let (sin, cos) = cordic.calc_sin_cos(0x2000_0000, 0x7fff_ffff, 0);
    assert_eq!(sin, 0x7fff_ffff);
    assert_eq!(cos, 0);
    assert_eq!(cordic.pending_reads, 0);

    // Deferred convention: one write, two reads a tick later.
    cordic.calc_sin_cos_deferred(0x4000_0000);
    assert_eq!(cordic.pending_reads, 2);
    assert_eq!(cordic.last_theta, 0x4000_0000);
    let (sin, cos) = cordic.get_result(0, i32::MIN);
    assert_eq!(sin, 0);
    assert_eq!(cos, i32::MIN);
    assert_eq!(cordic.pending_reads, 0);
}

#[test]
fn dmamux_routes_requested_slot_only() {
    let mut mux = DMAMux::new();
    mux.set(0, 5);
    mux.set(1, 36);
    assert_eq!(mux.req_id[0], 5);
    assert_eq!(mux.req_id[1], 36);
    for slot in 2..16 {
        assert_eq!(mux.req_id[slot], 0);
    }
}

#[test]
fn dma_channel_flag_bookkeeping() {
    let dma = DMA::new();
    assert_eq!(dma.c1.channel, 1);
    assert_eq!(dma.c8.channel, 8);

    let mut ch = DMAChannel::new(2);
    ch.bind(0x5000_0040);
    assert!(ch.circ && ch.minc && ch.tcie);
    assert_eq!(ch.msize, 1);
    assert_eq!(ch.psize, 1);
    assert_eq!(ch.cpar, 0x5000_0040);

    ch.start(0x2000_0100, 8);
    assert!(ch.en);
    assert_eq!(ch.cndtr, 8);

    ch.transfer_complete_event();
    assert!(ch.tcif());
    // Channel 2's transfer-complete flag sits at bit 5 of the shared
    // status register.
    assert_eq!(ch.flags() & (1 << 5), 1 << 5);
    ch.clear_tcif();
    assert!(!ch.tcif());
    // The global flag group is cleared explicitly.
    ch.clear_flags();
    assert_eq!(ch.flags(), 0);

    ch.stop();
    assert!(!ch.en);
}
