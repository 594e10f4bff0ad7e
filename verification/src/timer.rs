//! The system timer: IRQ line 0 counts ticks and reports every hundredth.
use vstd::prelude::*;
use crate::interrupt::{
    dispatch_spec, eoi_spec, lemma_registered_handler_runs, register_handler, Dispatch, Handler,
    InterruptTable, Registers, IRQ_LINES,
};

verus! {

/// Ticks between two reports.
pub const REPORT_EVERY: usize = 100;

/// The tick counter.
pub struct Timer {
    pub ticks: usize,
}

impl Timer {
    /// A timer that has not ticked yet.
    pub fn new() -> (t: Timer)
        ensures
            t.ticks == 0,
    {
        Timer { ticks: 0 }
    }
}

/// Whether the tick that brings the counter to `ticks` is reported.
pub open spec fn reports(ticks: int) -> bool {
    ticks % (REPORT_EVERY as int) == 0
}

/// Counts one tick; returns whether it is to be reported (printed as
/// `tick`), which is when the count reaches a multiple of 100.
pub fn timer_tick(timer: &mut Timer, regs: &Registers) -> (report: bool)
    requires
        old(timer).ticks < usize::MAX,
    ensures
        final(timer).ticks == old(timer).ticks + 1,
        report == reports(final(timer).ticks as int),
{
    timer.ticks = timer.ticks + 1;
    timer.ticks % REPORT_EVERY == 0
}

/// Puts the timer tick in the slot of IRQ line 0.
pub fn init(table: &mut InterruptTable)
    requires
        old(table).wf(),
    ensures
        final(table).wf(),
        final(table)@ == old(table)@.update(0, Handler::TimerTick),
{
    register_handler(table, 0, Handler::TimerTick);
}

/// Once `init` has run, the timer's vector (32) counts a tick and is
/// acknowledged at the master PIC only.
pub proof fn lemma_timer_vector_after_init(handlers: Seq<Handler>)
    requires
        handlers.len() == IRQ_LINES,
    ensures
        dispatch_spec(handlers.update(0, Handler::TimerTick), 32) == (Dispatch::Irq {
            irq: 0,
            handler: Handler::TimerTick,
            eoi: eoi_spec(32),
        }),
        eoi_spec(32).len() == 1,
{
    lemma_registered_handler_runs(handlers, 0, Handler::TimerTick);
}

/// A reported tick is followed by 99 unreported ones and then a reported
/// one again.
pub proof fn lemma_report_period(ticks: int)
    requires
        ticks >= 0,
        reports(ticks),
    ensures
        forall|k: int| 0 < k < REPORT_EVERY ==> !#[trigger] reports(ticks + k),
        reports(ticks + REPORT_EVERY),
{
    assert forall|k: int| 0 < k < REPORT_EVERY implies !#[trigger] reports(ticks + k) by {
        assert((ticks + k) % 100 == k) by (nonlinear_arith)
            requires
                ticks % 100 == 0,
                0 < k < 100,
                ticks >= 0,
        ;
    }
    assert((ticks + 100) % 100 == 0) by (nonlinear_arith)
        requires
            ticks % 100 == 0,
    ;
}

/// Any 100 consecutive ticks, whatever count they start from, report
/// exactly once: the counts `start + 1 ..= start + 100` that they reach hold
/// exactly one multiple of 100.
pub proof fn lemma_hundred_ticks_report_once(start: int)
    requires
        start >= 0,
    ensures
        exists|k: int| start < k <= start + REPORT_EVERY && #[trigger] reports(k),
        forall|k1: int, k2: int|
            start < k1 <= start + REPORT_EVERY && start < k2 <= start + REPORT_EVERY
                && #[trigger] reports(k1) && #[trigger] reports(k2) ==> k1 == k2,
{
    let k = (start / 100 + 1) * 100;
    assert(start < k <= start + 100 && k % 100 == 0) by (nonlinear_arith)
        requires
            start >= 0,
            k == (start / 100 + 1) * 100,
    ;
    assert(reports(k));
    assert forall|k1: int, k2: int|
        start < k1 <= start + REPORT_EVERY && start < k2 <= start + REPORT_EVERY
            && #[trigger] reports(k1) && #[trigger] reports(k2) implies k1 == k2 by {
        assert(k1 == k2) by (nonlinear_arith)
            requires
                start < k1 <= start + 100,
                start < k2 <= start + 100,
                k1 % 100 == 0,
                k2 % 100 == 0,
        ;
    }
}

/// From a fresh timer the first 99 ticks are not reported and the 100th
/// is.
pub proof fn lemma_first_report()
    ensures
        forall|k: int| 1 <= k < 100 ==> !#[trigger] reports(k),
        reports(100),
{
}

} // verus!
