//! Interrupt dispatch: exceptions (vectors below 32) stop the machine,
//! hardware interrupts (vectors 32 and up, as the PICs are remapped) go to
//! the handler registered for their IRQ line and are then acknowledged.
use vstd::prelude::*;

verus! {

/// The register frame that the assembly entry stub pushes before it calls
/// into the kernel.
#[derive(Clone, Copy)]
pub struct Registers {
    pub ds: u32,
    pub edi: u32,
    pub esi: u32,
    pub ebp: u32,
    pub esp: u32,
    pub ebx: u32,
    pub edx: u32,
    pub ecx: u32,
    pub eax: u32,
    pub int_num: u32,
    pub err_code: u32,
    pub eip: u32,
    pub cs: u32,
    pub eflags: u32,
    pub useresp: u32,
    pub ss: u32,
}

/// The interrupt handlers that the kernel knows.
#[derive(Clone, Copy, Debug, PartialEq, Eq, Structural)]
pub enum Handler {
    /// Reports the vector as unhandled.
    Unhandled,
    /// Counts a timer tick.
    TimerTick,
    /// The handler of device driver number `id` (the keyboard driver, for
    /// one), which the kernel calls with the register frame.
    Driver { id: u32 },
}

/// One byte written to an I/O port.
#[derive(Clone, Copy, Debug, PartialEq, Eq, Structural)]
pub struct PortWrite {
    pub port: u16,
    pub value: u8,
}

/// Command port of the master PIC.
pub const PIC1_COMMAND: u16 = 0x20;

/// Command port of the slave PIC.
pub const PIC2_COMMAND: u16 = 0xA0;

/// The end-of-interrupt command.
pub const PIC_EOI: u8 = 0x20;

/// The first vector of the hardware interrupts.
pub const IRQ_BASE: u32 = 32;

/// The first vector of the slave PIC's interrupts.
pub const SLAVE_BASE: u32 = 40;

/// Number of IRQ lines, and of handler slots.
pub const IRQ_LINES: usize = 16;

/// The writes that acknowledge vector `int_num`: the slave PIC first when
/// the interrupt came through it, then always the master PIC.
pub open spec fn eoi_spec(int_num: u32) -> Seq<PortWrite> {
    let master = PortWrite { port: PIC1_COMMAND, value: PIC_EOI };
    let slave = PortWrite { port: PIC2_COMMAND, value: PIC_EOI };
    if int_num >= SLAVE_BASE {
        seq![slave, master]
    } else {
        seq![master]
    }
}

/// What taking an interrupt comes to, as a value.
pub ghost enum Dispatch {
    Exception { int_num: u32 },
    Irq { irq: int, handler: Handler, eoi: Seq<PortWrite> },
}

/// What the kernel does on vector `int_num` with the handler slots
/// `handlers`: below 32 it is an exception; otherwise the handler of IRQ
/// line `int_num - 32` runs and the interrupt is acknowledged.
pub open spec fn dispatch_spec(handlers: Seq<Handler>, int_num: u32) -> Dispatch {
    if int_num < IRQ_BASE {
        Dispatch::Exception { int_num }
    } else {
        let irq = int_num - IRQ_BASE;
        Dispatch::Irq { irq, handler: handlers[irq], eoi: eoi_spec(int_num) }
    }
}

/// What the kernel does on an interrupt.
pub enum InterruptAction {
    /// A processor exception: report `EXCEPTION <int_num>` and halt.
    Exception { int_num: u32 },
    /// A hardware interrupt on IRQ line `irq`: run `handler` with the
    /// register frame, then perform the writes `eoi`.
    Irq { irq: usize, handler: Handler, eoi: Vec<PortWrite> },
}

impl View for InterruptAction {
    type V = Dispatch;

    open spec fn view(&self) -> Dispatch {
        match self {
            InterruptAction::Exception { int_num } => Dispatch::Exception { int_num: *int_num },
            InterruptAction::Irq { irq, handler, eoi } => Dispatch::Irq {
                irq: *irq as int,
                handler: *handler,
                eoi: eoi@,
            },
        }
    }
}

/// The handler slots of the sixteen IRQ lines.
pub struct InterruptTable {
    handlers: Vec<Handler>,
}

impl View for InterruptTable {
    type V = Seq<Handler>;

    closed spec fn view(&self) -> Seq<Handler> {
        self.handlers@
    }
}

impl InterruptTable {
    /// Every IRQ line has its slot.
    pub open spec fn wf(&self) -> bool {
        self@.len() == IRQ_LINES
    }

    /// A table with every slot set to `Handler::Unhandled`.
    pub fn new() -> (t: InterruptTable)
        ensures
            t.wf(),
            forall|i: int| 0 <= i < IRQ_LINES ==> t@[i] == Handler::Unhandled,
    {
        let mut handlers: Vec<Handler> = Vec::new();
        let mut i: usize = 0;
        while i < IRQ_LINES
            invariant
                i <= IRQ_LINES,
                handlers@.len() == i,
                forall|j: int| 0 <= j < i ==> handlers@[j] == Handler::Unhandled,
            decreases IRQ_LINES - i,
        {
            handlers.push(Handler::Unhandled);
            i = i + 1;
        }
        InterruptTable { handlers }
    }

    /// The handler in slot `index`.
    pub fn handler(&self, index: usize) -> (h: Handler)
        requires
            self.wf(),
            index < IRQ_LINES,
        ensures
            h == self@[index as int],
    {
        self.handlers[index]
    }
}

/// The writes that acknowledge vector `int_num` at the PICs.
pub fn eoi_writes(int_num: u32) -> (w: Vec<PortWrite>)
    ensures
        w@ == eoi_spec(int_num),
{
    let mut w: Vec<PortWrite> = Vec::new();
    if int_num >= SLAVE_BASE {
        w.push(PortWrite { port: PIC2_COMMAND, value: PIC_EOI });
    }
    w.push(PortWrite { port: PIC1_COMMAND, value: PIC_EOI });
    proof {
        assert(w@ =~= eoi_spec(int_num));
    }
    w
}

/// Puts `handler` in the slot of IRQ line `index`.
pub fn register_handler(table: &mut InterruptTable, index: usize, handler: Handler)
    requires
        old(table).wf(),
        index < IRQ_LINES,
    ensures
        final(table).wf(),
        final(table)@ == old(table)@.update(index as int, handler),
{
    table.handlers.set(index, handler);
}

/// Decides what vector `regs.int_num` comes to: see `dispatch_spec`.
/// Vectors from 48 up have no slot.
pub fn interrupt_handler(table: &InterruptTable, regs: &Registers) -> (a: InterruptAction)
    requires
        table.wf(),
        regs.int_num < IRQ_BASE + IRQ_LINES,
    ensures
        a@ == dispatch_spec(table@, regs.int_num),
{
    if regs.int_num >= IRQ_BASE {
        let irq: usize = (regs.int_num - IRQ_BASE) as usize;
        let handler = table.handler(irq);
        let eoi = eoi_writes(regs.int_num);
        InterruptAction::Irq { irq, handler, eoi }
    } else {
        InterruptAction::Exception { int_num: regs.int_num }
    }
}

/// After `handler` is put in slot `index`, the vector of that IRQ line
/// runs `handler`.
pub proof fn lemma_registered_handler_runs(handlers: Seq<Handler>, index: int, handler: Handler)
    requires
        handlers.len() == IRQ_LINES,
        0 <= index < IRQ_LINES,
    ensures
        dispatch_spec(handlers.update(index, handler), (IRQ_BASE + index) as u32) == (Dispatch::Irq {
            irq: index,
            handler,
            eoi: eoi_spec((IRQ_BASE + index) as u32),
        }),
{
}

/// Putting a handler in one slot changes nothing for any other vector.
pub proof fn lemma_register_leaves_other_vectors(
    handlers: Seq<Handler>,
    index: int,
    handler: Handler,
    int_num: u32,
)
    requires
        handlers.len() == IRQ_LINES,
        0 <= index < IRQ_LINES,
        int_num < IRQ_BASE + IRQ_LINES,
        int_num != IRQ_BASE + index,
    ensures
        dispatch_spec(handlers.update(index, handler), int_num) == dispatch_spec(handlers, int_num),
{
}

/// Every hardware interrupt is acknowledged at the master PIC last, and
/// at the slave PIC before that exactly when it came through the slave.
pub proof fn lemma_eoi_order(int_num: u32)
    ensures
        eoi_spec(int_num).last() == (PortWrite { port: PIC1_COMMAND, value: PIC_EOI }),
        eoi_spec(int_num).len() == 2 <==> int_num >= SLAVE_BASE,
        int_num >= SLAVE_BASE ==> eoi_spec(int_num)[0] == (PortWrite {
            port: PIC2_COMMAND,
            value: PIC_EOI,
        }),
{
}

} // verus!
