//! Processor setup.
use vstd::prelude::*;
use crate::interrupt::PortWrite;
use self::x86_tables::{
    gdt_init, gdt_load_spec, idt_entry_spec, idt_init, pic_init, pic_remap_spec, pit_setup_spec,
    DescriptorPointer, IdtTable, ProcessorStep, IDT_LIMIT,
};

pub mod x86_tables;

verus! {

/// What the processor is to be given: the steps that load the GDT (with the
/// segment reload) and the IDT, in order, and the port writes that program
/// the PICs and the timer.
pub struct ProcessorSetup {
    pub steps: Vec<ProcessorStep>,
    pub pic: Vec<PortWrite>,
}

/// Sets up the processor: the GDT at `gdt_table`, the IDT at `idt_table`
/// with vectors 32 and 33 pointing at their entry stubs, and the PICs and
/// the timer.
pub fn initialize_processor(
    idt: &mut IdtTable,
    gdt_table: u32,
    idt_table: u32,
    int32_entry: u32,
    int33_entry: u32,
) -> (s: ProcessorSetup)
    requires
        old(idt).wf(),
    ensures
        final(idt).wf(),
        final(idt)@ == old(idt)@.update(32, idt_entry_spec(int32_entry)).update(33, idt_entry_spec(int33_entry)),
        s.steps@ == gdt_load_spec(gdt_table).push(
            ProcessorStep::LoadIdt { pointer: DescriptorPointer { length: IDT_LIMIT, table: idt_table } },
        ),
        s.pic@ == pic_remap_spec() + pit_setup_spec(),
{
    let mut steps = gdt_init(gdt_table);
    let mut idt_steps = idt_init(idt, int32_entry, int33_entry, idt_table);
    steps.append(&mut idt_steps);
    let pic = pic_init();
    proof {
        assert(steps@ =~= gdt_load_spec(gdt_table).push(
            ProcessorStep::LoadIdt { pointer: DescriptorPointer { length: IDT_LIMIT, table: idt_table } },
        ));
    }
    ProcessorSetup { steps, pic }
}

} // verus!
