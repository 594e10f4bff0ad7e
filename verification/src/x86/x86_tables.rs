//! The processor tables: the flat global descriptor table, the interrupt
//! descriptor table and the programming of the two PICs and the timer.
use vstd::prelude::*;
use crate::interrupt::{PortWrite, IRQ_BASE, SLAVE_BASE};

verus! {

/// One segment descriptor of the GDT, field by field as the processor
/// reads it.
#[allow(non_camel_case_types)]
#[derive(Clone, Copy, Debug, PartialEq, Eq, Structural)]
pub struct gdt_desc {
    pub limit_low: u16,
    pub base_low: u16,
    pub base_mid: u8,
    pub access: u8,
    pub gran: u8,
    pub base_high: u8,
}

/// The 32-bit base address that a descriptor holds.
pub open spec fn seg_base(d: gdt_desc) -> int {
    d.base_low + d.base_mid * 0x1_0000 + d.base_high * 0x100_0000
}

/// The 20-bit limit that a descriptor holds.
pub open spec fn seg_limit(d: gdt_desc) -> int {
    d.limit_low + (d.gran % 16) * 0x1_0000
}

/// The limit counts 4 KiB pages rather than bytes.
pub open spec fn page_granular(d: gdt_desc) -> bool {
    d.gran / 128 == 1
}

/// The segment is a 32-bit one.
pub open spec fn is_32bit(d: gdt_desc) -> bool {
    (d.gran / 64) % 2 == 1
}

/// The segment is present.
pub open spec fn present(d: gdt_desc) -> bool {
    d.access / 128 == 1
}

/// The privilege level that the segment asks for.
pub open spec fn privilege(d: gdt_desc) -> int {
    ((d.access / 32) % 4) as int
}

/// The descriptor is a code or data segment, not a system one.
pub open spec fn code_or_data(d: gdt_desc) -> bool {
    (d.access / 16) % 2 == 1
}

/// The segment holds code.
pub open spec fn executable(d: gdt_desc) -> bool {
    (d.access / 8) % 2 == 1
}

/// Code that may be read, or data that may be written.
pub open spec fn readable_or_writable(d: gdt_desc) -> bool {
    (d.access / 2) % 2 == 1
}

/// The descriptor covers the whole 4 GiB address space from address 0.
pub open spec fn flat(d: gdt_desc) -> bool {
    &&& seg_base(d) == 0
    &&& page_granular(d)
    &&& (seg_limit(d) + 1) * 4096 == 0x1_0000_0000
}

/// A ring-0 32-bit segment over the whole address space.
pub open spec fn flat_ring0_segment(d: gdt_desc) -> bool {
    &&& flat(d)
    &&& present(d)
    &&& privilege(d) == 0
    &&& code_or_data(d)
    &&& is_32bit(d)
    &&& readable_or_writable(d)
}

/// The null descriptor.
pub open spec fn null_desc() -> gdt_desc {
    gdt_desc { limit_low: 0, base_low: 0, base_mid: 0, access: 0, gran: 0, base_high: 0 }
}

/// The kernel's GDT: the null descriptor, a flat ring-0 code segment and
/// a flat ring-0 data segment.
pub open spec fn gdt_spec() -> Seq<gdt_desc> {
    seq![
        null_desc(),
        gdt_desc { limit_low: 0xFFFF, base_low: 0, base_mid: 0, access: 0x9A, gran: 0xCF, base_high: 0 },
        gdt_desc { limit_low: 0xFFFF, base_low: 0, base_mid: 0, access: 0x92, gran: 0xCF, base_high: 0 },
    ]
}

/// The GDT: a null descriptor, then a code and a data segment, both flat
/// over 4 GiB in ring 0.
pub fn gdt() -> (t: Vec<gdt_desc>)
    ensures
        t@ == gdt_spec(),
        t@.len() == 3,
        t@[0] == null_desc(),
        flat_ring0_segment(t@[1]),
        executable(t@[1]),
        flat_ring0_segment(t@[2]),
        !executable(t@[2]),
{
    let mut t: Vec<gdt_desc> = Vec::new();
    t.push(gdt_desc { limit_low: 0, base_low: 0, base_mid: 0, access: 0, gran: 0, base_high: 0 });
    t.push(gdt_desc { limit_low: 0xFFFF, base_low: 0, base_mid: 0, access: 0x9A, gran: 0xCF, base_high: 0 });
    t.push(gdt_desc { limit_low: 0xFFFF, base_low: 0, base_mid: 0, access: 0x92, gran: 0xCF, base_high: 0 });
    proof {
        assert(t@ =~= gdt_spec());
    }
    t
}

/// The operand of `lgdt` and `lidt`: the limit of a table (its size in
/// bytes less one) and its address.
#[derive(Clone, Copy, Debug, PartialEq, Eq, Structural)]
pub struct DescriptorPointer {
    pub length: u16,
    pub table: u32,
}

/// One step of loading the descriptor tables into the processor.
#[derive(Clone, Copy, Debug, PartialEq, Eq, Structural)]
pub enum ProcessorStep {
    /// `lgdt` with this pointer.
    LoadGdt { pointer: DescriptorPointer },
    /// Reload the segment registers (the `reload_segments` stub of the boot
    /// code), so that they take their descriptors from the new GDT.
    ReloadSegments,
    /// `lidt` with this pointer.
    LoadIdt { pointer: DescriptorPointer },
}

/// The limit with which the GDT is loaded: the last byte of its three
/// 8-byte descriptors.
pub const GDT_LIMIT: u16 = 23;

/// The steps that load the GDT found at `table`: load it with its limit,
/// then reload the segment registers from it.
pub open spec fn gdt_load_spec(table: u32) -> Seq<ProcessorStep> {
    seq![
        ProcessorStep::LoadGdt { pointer: DescriptorPointer { length: GDT_LIMIT, table } },
        ProcessorStep::ReloadSegments,
    ]
}

/// Loads the GDT found at `table`: `lgdt` with limit 23, which is the last
/// byte of the three 8-byte descriptors, then the segment reload.
pub fn gdt_init(table: u32) -> (steps: Vec<ProcessorStep>)
    ensures
        steps@ == gdt_load_spec(table),
        GDT_LIMIT + 1 == 8 * gdt_spec().len(),
{
    let mut steps: Vec<ProcessorStep> = Vec::new();
    steps.push(ProcessorStep::LoadGdt { pointer: DescriptorPointer { length: GDT_LIMIT, table } });
    steps.push(ProcessorStep::ReloadSegments);
    proof {
        assert(steps@ =~= gdt_load_spec(table));
    }
    steps
}

/// The eight bytes of a descriptor as the processor reads them, taken as a
/// little-endian 64-bit number: the fields in their declared order.
pub open spec fn desc_bits(d: gdt_desc) -> u64 {
    (d.limit_low as u64) | ((d.base_low as u64) << 16u64) | ((d.base_mid as u64) << 32u64) | ((
    d.access as u64) << 40u64) | ((d.gran as u64) << 48u64) | ((d.base_high as u64) << 56u64)
}

impl gdt_desc {
    /// The descriptor as the eight bytes the processor reads, in a
    /// little-endian 64-bit number.
    pub fn encode(&self) -> (e: u64)
        ensures
            e == desc_bits(*self),
    {
        (self.limit_low as u64) | ((self.base_low as u64) << 16) | ((self.base_mid as u64) << 32) | ((
        self.access as u64) << 40) | ((self.gran as u64) << 48) | ((self.base_high as u64) << 56)
    }
}

/// Every field of a descriptor sits in its own bytes of the encoding.
pub proof fn lemma_desc_bits_fields(d: gdt_desc)
    ensures
        desc_bits(d) & 0xFFFF == d.limit_low as u64,
        (desc_bits(d) >> 16u64) & 0xFFFF == d.base_low as u64,
        (desc_bits(d) >> 32u64) & 0xFF == d.base_mid as u64,
        (desc_bits(d) >> 40u64) & 0xFF == d.access as u64,
        (desc_bits(d) >> 48u64) & 0xFF == d.gran as u64,
        desc_bits(d) >> 56u64 == d.base_high as u64,
{
    let (a, b, c, e, f, g) = (d.limit_low, d.base_low, d.base_mid, d.access, d.gran, d.base_high);
    let x = desc_bits(d);
    assert(x & 0xFFFF == a as u64 && (x >> 16u64) & 0xFFFF == b as u64 && (x >> 32u64) & 0xFF
        == c as u64 && (x >> 40u64) & 0xFF == e as u64 && (x >> 48u64) & 0xFF == f as u64 && x
        >> 56u64 == g as u64) by (bit_vector)
        requires
            x == (a as u64) | ((b as u64) << 16u64) | ((c as u64) << 32u64) | ((e as u64)
                << 40u64) | ((f as u64) << 48u64) | ((g as u64) << 56u64),
    ;
}

/// The kernel's GDT encodes to the null descriptor and the usual flat
/// code (`0x00CF9A000000FFFF`) and data (`0x00CF92000000FFFF`) descriptors.
pub proof fn lemma_gdt_encoding()
    ensures
        desc_bits(gdt_spec()[0]) == 0,
        desc_bits(gdt_spec()[1]) == 0x00CF_9A00_0000_FFFFu64,
        desc_bits(gdt_spec()[2]) == 0x00CF_9200_0000_FFFFu64,
{
    let z: u64 = 0;
    assert(z | (z << 16u64) | (z << 32u64) | (z << 40u64) | (z << 48u64) | (z << 56u64) == 0)
        by (bit_vector)
        requires
            z == 0,
    ;
    let (l, a1, a2, g): (u64, u64, u64, u64) = (0xFFFF, 0x9A, 0x92, 0xCF);
    assert(l | (z << 16u64) | (z << 32u64) | (a1 << 40u64) | (g << 48u64) | (z << 56u64)
        == 0x00CF_9A00_0000_FFFFu64) by (bit_vector)
        requires
            z == 0,
            l == 0xFFFF,
            a1 == 0x9A,
            g == 0xCF,
    ;
    assert(l | (z << 16u64) | (z << 32u64) | (a2 << 40u64) | (g << 48u64) | (z << 56u64)
        == 0x00CF_9200_0000_FFFFu64) by (bit_vector)
        requires
            z == 0,
            l == 0xFFFF,
            a2 == 0x92,
            g == 0xCF,
    ;
}

/// Entries of the IDT.
pub const IDT_ENTRIES: usize = 256;

/// The code segment selector that the interrupt gates use.
pub const KERNEL_CODE_SELECTOR: u64 = 0x8;

/// Type and attributes of a present ring-0 32-bit interrupt gate.
pub const INTERRUPT_GATE: u64 = 0x8E;

/// The interrupt gate to the handler at `addr`: offset bits 0..16 in bits
/// 0..16, the kernel code selector in bits 16..32, zero in bits 32..40, the
/// gate type in bits 40..48 and offset bits 16..32 in bits 48..64.
pub open spec fn idt_entry_spec(addr: u32) -> u64 {
    ((addr & 0xFFFF) as u64) | ((0x8u64 << 16u64) as u64) | ((0x8Eu64 << 40u64) as u64) | ((((addr
        >> 16u32) & 0xFFFF) as u64) << 48u64)
}

/// The interrupt gate to the handler at `addr`.
pub fn idt_entry(addr: u32) -> (e: u64)
    ensures
        e == idt_entry_spec(addr),
{
    ((addr & 0xFFFF) as u64) | (KERNEL_CODE_SELECTOR << 16) | (INTERRUPT_GATE << 40) | ((((addr
        >> 16) & 0xFFFF) as u64) << 48)
}

/// Decoding an interrupt gate: its two offset halves make up the handler's
/// address, its selector is the kernel code segment, its attribute byte is
/// that of an interrupt gate, and its fifth byte is zero.
pub proof fn lemma_idt_entry_fields(addr: u32)
    ensures
        (idt_entry_spec(addr) & 0xFFFF) | ((idt_entry_spec(addr) >> 48u64) << 16u64) == addr as u64,
        (idt_entry_spec(addr) >> 16u64) & 0xFFFF == 8,
        (idt_entry_spec(addr) >> 32u64) & 0xFF == 0,
        (idt_entry_spec(addr) >> 40u64) & 0xFF == 0x8E,
{
    let e = idt_entry_spec(addr);
    assert((e & 0xFFFF) | ((e >> 48u64) << 16u64) == addr as u64) by (bit_vector)
        requires
            e == ((addr & 0xFFFF) as u64) | ((0x8u64 << 16u64) as u64) | ((0x8Eu64 << 40u64) as u64)
                | ((((addr >> 16u32) & 0xFFFF) as u64) << 48u64),
    ;
    assert((e >> 16u64) & 0xFFFF == 8) by (bit_vector)
        requires
            e == ((addr & 0xFFFF) as u64) | ((0x8u64 << 16u64) as u64) | ((0x8Eu64 << 40u64) as u64)
                | ((((addr >> 16u32) & 0xFFFF) as u64) << 48u64),
    ;
    assert((e >> 32u64) & 0xFF == 0) by (bit_vector)
        requires
            e == ((addr & 0xFFFF) as u64) | ((0x8u64 << 16u64) as u64) | ((0x8Eu64 << 40u64) as u64)
                | ((((addr >> 16u32) & 0xFFFF) as u64) << 48u64),
    ;
    assert((e >> 40u64) & 0xFF == 0x8E) by (bit_vector)
        requires
            e == ((addr & 0xFFFF) as u64) | ((0x8u64 << 16u64) as u64) | ((0x8Eu64 << 40u64) as u64)
                | ((((addr >> 16u32) & 0xFFFF) as u64) << 48u64),
    ;
}

/// The interrupt descriptor table.
pub struct IdtTable {
    entries: Vec<u64>,
}

impl View for IdtTable {
    type V = Seq<u64>;

    closed spec fn view(&self) -> Seq<u64> {
        self.entries@
    }
}

impl IdtTable {
    /// The table has all its entries.
    pub open spec fn wf(&self) -> bool {
        self@.len() == IDT_ENTRIES
    }

    /// A table of empty (not present) entries.
    pub fn new() -> (t: IdtTable)
        ensures
            t.wf(),
            t@ == Seq::new(IDT_ENTRIES as nat, |i: int| 0u64),
    {
        let mut entries: Vec<u64> = Vec::new();
        let mut i: usize = 0;
        while i < IDT_ENTRIES
            invariant
                i <= IDT_ENTRIES,
                entries@ == Seq::new(i as nat, |j: int| 0u64),
            decreases IDT_ENTRIES - i,
        {
            entries.push(0);
            i = i + 1;
        }
        IdtTable { entries }
    }

    /// The entry for vector `idx`.
    pub fn entry(&self, idx: u8) -> (e: u64)
        requires
            self.wf(),
        ensures
            e == self@[idx as int],
    {
        self.entries[idx as usize]
    }
}

/// Points vector `idx` at the handler at address `vector`.
pub fn idt_write_entry(idt: &mut IdtTable, idx: u8, vector: u32)
    requires
        old(idt).wf(),
    ensures
        final(idt).wf(),
        final(idt)@ == old(idt)@.update(idx as int, idt_entry_spec(vector)),
{
    let e = idt_entry(vector);
    idt.entries.set(idx as usize, e);
}

/// The limit with which the IDT is loaded.
pub const IDT_LIMIT: u16 = 16383;

/// Points vectors 32 (the timer) and 33 (the keyboard) at their entry
/// stubs and gives the step that loads the IDT found at `table`.
pub fn idt_init(idt: &mut IdtTable, int32_entry: u32, int33_entry: u32, table: u32) -> (steps: Vec<ProcessorStep>)
    requires
        old(idt).wf(),
    ensures
        final(idt).wf(),
        final(idt)@ == old(idt)@.update(32, idt_entry_spec(int32_entry)).update(33, idt_entry_spec(int33_entry)),
        steps@ == seq![ProcessorStep::LoadIdt { pointer: DescriptorPointer { length: IDT_LIMIT, table } }],
{
    idt_write_entry(idt, 32, int32_entry);
    idt_write_entry(idt, 33, int33_entry);
    let mut steps: Vec<ProcessorStep> = Vec::new();
    steps.push(ProcessorStep::LoadIdt { pointer: DescriptorPointer { length: IDT_LIMIT, table } });
    proof {
        assert(steps@ =~= seq![ProcessorStep::LoadIdt { pointer: DescriptorPointer { length: IDT_LIMIT, table } }]);
    }
    steps
}

/// Frequency of the programmable interval timer's input clock, in Hz.
pub const PIT_FREQUENCY: u32 = 1193180;

/// Timer interrupts per second.
pub const TIMER_HZ: u32 = 100;

/// The PIT divisor that gives `TIMER_HZ` interrupts per second.
pub open spec fn timer_divisor() -> int {
    (PIT_FREQUENCY / TIMER_HZ) as int
}

/// The writes that reinitialise both PICs: ICW1 to start, ICW2 with their
/// vector offsets (32 for the master, 40 for the slave), ICW3 to chain the
/// slave on line 2, ICW4 for 8086 mode, then all lines unmasked.
pub open spec fn pic_remap_spec() -> Seq<PortWrite> {
    seq![
        PortWrite { port: 0x20, value: 0x11 },
        PortWrite { port: 0xA0, value: 0x11 },
        PortWrite { port: 0x21, value: 0x20 },
        PortWrite { port: 0xA1, value: 0x28 },
        PortWrite { port: 0x21, value: 0x04 },
        PortWrite { port: 0xA1, value: 0x02 },
        PortWrite { port: 0x21, value: 0x01 },
        PortWrite { port: 0xA1, value: 0x01 },
        PortWrite { port: 0x21, value: 0x0 },
        PortWrite { port: 0xA1, value: 0x0 },
    ]
}

/// The writes that set timer channel 0 to a square wave generator with the
/// divisor for `TIMER_HZ`: the command byte, then the divisor's low and
/// high bytes.
pub open spec fn pit_setup_spec() -> Seq<PortWrite> {
    seq![
        PortWrite { port: 0x43, value: 0x36 },
        PortWrite { port: 0x40, value: (timer_divisor() % 256) as u8 },
        PortWrite { port: 0x40, value: (timer_divisor() / 256) as u8 },
    ]
}

/// The timer's writes, computed from the divisor.
pub fn pit_setup() -> (w: Vec<PortWrite>)
    ensures
        w@ == pit_setup_spec(),
{
    let divisor: u32 = PIT_FREQUENCY / TIMER_HZ;
    let mut w: Vec<PortWrite> = Vec::new();
    w.push(PortWrite { port: 0x43, value: 0x36 });
    assert(divisor & 0xFF == divisor % 256) by (bit_vector);
    assert(divisor >> 8 == divisor / 256) by (bit_vector);
    w.push(PortWrite { port: 0x40, value: (divisor & 0xFF) as u8 });
    w.push(PortWrite { port: 0x40, value: (divisor >> 8) as u8 });
    proof {
        assert(w@ =~= pit_setup_spec());
    }
    w
}

/// The writes that program the PICs and the timer, in order.
pub fn pic_init() -> (w: Vec<PortWrite>)
    ensures
        w@ == pic_remap_spec() + pit_setup_spec(),
{
    let mut w: Vec<PortWrite> = Vec::new();
    w.push(PortWrite { port: 0x20, value: 0x11 });
    w.push(PortWrite { port: 0xA0, value: 0x11 });
    w.push(PortWrite { port: 0x21, value: 0x20 });
    w.push(PortWrite { port: 0xA1, value: 0x28 });
    w.push(PortWrite { port: 0x21, value: 0x04 });
    w.push(PortWrite { port: 0xA1, value: 0x02 });
    w.push(PortWrite { port: 0x21, value: 0x01 });
    w.push(PortWrite { port: 0xA1, value: 0x01 });
    w.push(PortWrite { port: 0x21, value: 0x0 });
    w.push(PortWrite { port: 0xA1, value: 0x0 });
    let mut t = pit_setup();
    w.append(&mut t);
    proof {
        assert(w@ =~= pic_remap_spec() + pit_setup_spec());
    }
    w
}

/// The vector offsets that the PICs are given are those at which
/// `interrupt_handler` starts the hardware interrupts and the slave's.
pub proof fn lemma_pic_offsets_match_dispatch()
    ensures
        pic_remap_spec()[2] == (PortWrite { port: 0x21, value: IRQ_BASE as u8 }),
        pic_remap_spec()[3] == (PortWrite { port: 0xA1, value: SLAVE_BASE as u8 }),
{
}

/// The two divisor bytes make up the divisor again, and the timer then
/// fires `TIMER_HZ` times a second (rounded down).
pub proof fn lemma_pit_divisor()
    ensures
        pit_setup_spec()[1].value + pit_setup_spec()[2].value * 256 == timer_divisor(),
        (PIT_FREQUENCY as int) / timer_divisor() == TIMER_HZ as int,
{
    assert(timer_divisor() == 11931);
    assert(1193180int / 11931int == 100) by (nonlinear_arith);
}

/// What the PIC and timer writes mean: both PICs get ICW1 with the
/// initialise bit (0x10) and the "ICW4 follows" bit (0x01); ICW2 gives the
/// master vectors from 32 and the slave vectors from 40; ICW3 tells the
/// master that the slave hangs on line 2 (bit 2) and the slave that its
/// number is 2; ICW4 sets 8086 mode (0x01); then no line is masked. The
/// timer command selects channel 0 (bits 6..8 zero), low byte then high
/// byte (bits 4..6 set), mode 3, the square wave (bits 1..4 = 3), and
/// binary counting (bit 0 clear), and the divisor is 11931.
pub proof fn lemma_pic_pit_meaning()
    ensures
        pic_remap_spec().len() == 10,
        pic_remap_spec()[0].port == 0x20 && pic_remap_spec()[0].value == 0x10 + 0x01,
        pic_remap_spec()[1].port == 0xA0 && pic_remap_spec()[1].value == 0x10 + 0x01,
        pic_remap_spec()[2] == (PortWrite { port: 0x21, value: 32 }),
        pic_remap_spec()[3] == (PortWrite { port: 0xA1, value: 40 }),
        pic_remap_spec()[4] == (PortWrite { port: 0x21, value: 4 }),
        pic_remap_spec()[5] == (PortWrite { port: 0xA1, value: 2 }),
        pic_remap_spec()[6] == (PortWrite { port: 0x21, value: 1 }),
        pic_remap_spec()[7] == (PortWrite { port: 0xA1, value: 1 }),
        pic_remap_spec()[8] == (PortWrite { port: 0x21, value: 0 }),
        pic_remap_spec()[9] == (PortWrite { port: 0xA1, value: 0 }),
        pit_setup_spec().len() == 3,
        pit_setup_spec()[0].port == 0x43 && pit_setup_spec()[0].value == 0 * 64 + 3 * 16 + 3 * 2 + 0,
        pit_setup_spec()[1].port == 0x40,
        pit_setup_spec()[2].port == 0x40,
        pit_setup_spec()[1].value + pit_setup_spec()[2].value * 256 == 11931,
{
}

} // verus!
