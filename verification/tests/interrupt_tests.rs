use lib::interrupt::{
    eoi_writes, interrupt_handler, register_handler, Handler, InterruptAction, InterruptTable,
    PortWrite, Registers,
};
use lib::timer::{init, timer_tick, Timer};

fn regs(int_num: u32) -> Registers {
    Registers {
        ds: 0x10,
        edi: 1,
        esi: 2,
        ebp: 3,
        esp: 4,
        ebx: 5,
        edx: 6,
        ecx: 7,
        eax: 8,
        int_num,
        err_code: 0,
        eip: 0x100000,
        cs: 0x8,
        eflags: 0x202,
        useresp: 0,
        ss: 0x10,
    }
}

const MASTER: PortWrite = PortWrite { port: 0x20, value: 0x20 };
const SLAVE: PortWrite = PortWrite { port: 0xA0, value: 0x20 };

#[test]
fn new_table_is_all_unhandled() {
    let t = InterruptTable::new();
    for i in 0..16 {
        assert_eq!(t.handler(i), Handler::Unhandled);
    }
}

#[test]
fn exception_vectors_halt() {
    let t = InterruptTable::new();
    for v in [0u32, 13, 14, 31] {
        match interrupt_handler(&t, &regs(v)) {
            InterruptAction::Exception { int_num } => assert_eq!(int_num, v),
            InterruptAction::Irq { .. } => panic!("vector {} is an exception", v),
        }
    }
}

#[test]
fn master_irq_acknowledged_at_master_only() {
    let t = InterruptTable::new();
    match interrupt_handler(&t, &regs(32)) {
        InterruptAction::Irq { irq, handler, eoi } => {
            assert_eq!(irq, 0);
            assert_eq!(handler, Handler::Unhandled);
            assert_eq!(eoi, vec![MASTER]);
        }
        InterruptAction::Exception { .. } => panic!("vector 32 is an IRQ"),
    }
    match interrupt_handler(&t, &regs(39)) {
        InterruptAction::Irq { irq, eoi, .. } => {
            assert_eq!(irq, 7);
            assert_eq!(eoi, vec![MASTER]);
        }
        InterruptAction::Exception { .. } => panic!("vector 39 is an IRQ"),
    }
}

#[test]
fn slave_irq_acknowledged_at_both() {
    let t = InterruptTable::new();
    for (v, line) in [(40u32, 8usize), (47, 15)] {
        match interrupt_handler(&t, &regs(v)) {
            InterruptAction::Irq { irq, eoi, .. } => {
                assert_eq!(irq, line);
                assert_eq!(eoi, vec![SLAVE, MASTER]);
            }
            InterruptAction::Exception { .. } => panic!("vector {} is an IRQ", v),
        }
    }
}

#[test]
fn eoi_writes_values() {
    assert_eq!(eoi_writes(33), vec![MASTER]);
    assert_eq!(eoi_writes(44), vec![SLAVE, MASTER]);
}

#[test]
fn registered_handler_runs_and_others_stay() {
    let mut t = InterruptTable::new();
    register_handler(&mut t, 5, Handler::TimerTick);
    assert_eq!(t.handler(5), Handler::TimerTick);
    match interrupt_handler(&t, &regs(37)) {
        InterruptAction::Irq { irq, handler, .. } => {
            assert_eq!(irq, 5);
            assert_eq!(handler, Handler::TimerTick);
        }
        InterruptAction::Exception { .. } => panic!("vector 37 is an IRQ"),
    }
    for i in 0..16 {
        if i != 5 {
            assert_eq!(t.handler(i), Handler::Unhandled);
        }
    }
    register_handler(&mut t, 5, Handler::Unhandled);
    assert_eq!(t.handler(5), Handler::Unhandled);
}

#[test]
fn timer_init_takes_vector_32() {
    let mut t = InterruptTable::new();
    init(&mut t);
    assert_eq!(t.handler(0), Handler::TimerTick);
    match interrupt_handler(&t, &regs(32)) {
        InterruptAction::Irq { irq, handler, eoi } => {
            assert_eq!(irq, 0);
            assert_eq!(handler, Handler::TimerTick);
            assert_eq!(eoi, vec![MASTER]);
        }
        InterruptAction::Exception { .. } => panic!("vector 32 is an IRQ"),
    }
    assert_eq!(t.handler(1), Handler::Unhandled);
}

#[test]
fn timer_reports_every_hundredth_tick() {
    let mut timer = Timer::new();
    let r = regs(32);
    let mut reports = Vec::new();
    for _ in 0..250 {
        if timer_tick(&mut timer, &r) {
            reports.push(timer.ticks);
        }
    }
    assert_eq!(timer.ticks, 250);
    assert_eq!(reports, vec![100, 200]);
}

#[test]
fn timer_first_tick_is_not_reported() {
    let mut timer = Timer::new();
    assert!(!timer_tick(&mut timer, &regs(32)));
    assert_eq!(timer.ticks, 1);
}

#[test]
fn driver_handler_is_dispatched_with_its_id() {
    let mut t = InterruptTable::new();
    register_handler(&mut t, 1, Handler::Driver { id: 7 });
    match interrupt_handler(&t, &regs(33)) {
        InterruptAction::Irq { irq, handler, eoi } => {
            assert_eq!(irq, 1);
            assert_eq!(handler, Handler::Driver { id: 7 });
            assert_eq!(eoi, vec![MASTER]);
        }
        InterruptAction::Exception { .. } => panic!("vector 33 is an IRQ"),
    }
}

#[test]
fn any_hundred_ticks_report_once() {
    for start in [0usize, 1, 57, 99, 100, 12345] {
        let mut timer = Timer { ticks: start };
        let mut reports = 0;
        for _ in 0..100 {
            if timer_tick(&mut timer, &regs(32)) {
                reports += 1;
            }
        }
        assert_eq!(reports, 1);
        assert_eq!(timer.ticks, start + 100);
    }
}
