use lib::interrupt::{PortWrite, Registers};
use lib::x86::initialize_processor;
use lib::x86::x86_tables::{
    gdt, gdt_desc, gdt_init, idt_entry, idt_init, idt_write_entry, pic_init, DescriptorPointer,
    IdtTable, ProcessorStep,
};
use lib::x86_tables::{interrupt_handler, keymap, reads_scancode, InterruptCount};

fn pw(port: u16, value: u8) -> PortWrite {
    PortWrite { port, value }
}

fn regs(int_num: u32) -> Registers {
    Registers {
        ds: 0, edi: 0, esi: 0, ebp: 0, esp: 0, ebx: 0, edx: 0, ecx: 0, eax: 0,
        int_num, err_code: 0, eip: 0, cs: 0, eflags: 0, useresp: 0, ss: 0,
    }
}

#[test]
fn gdt_is_null_code_data() {
    let t = gdt();
    assert_eq!(t.len(), 3);
    assert_eq!(t[0], gdt_desc { limit_low: 0, base_low: 0, base_mid: 0, access: 0, gran: 0, base_high: 0 });
    assert_eq!(t[1], gdt_desc { limit_low: 0xFFFF, base_low: 0, base_mid: 0, access: 0x9A, gran: 0xCF, base_high: 0 });
    assert_eq!(t[2], gdt_desc { limit_low: 0xFFFF, base_low: 0, base_mid: 0, access: 0x92, gran: 0xCF, base_high: 0 });
}

#[test]
fn gdt_init_loads_then_reloads_segments() {
    assert_eq!(
        gdt_init(0x1234),
        vec![
            ProcessorStep::LoadGdt { pointer: DescriptorPointer { length: 23, table: 0x1234 } },
            ProcessorStep::ReloadSegments,
        ]
    );
}

#[test]
fn gdt_encodes_to_flat_descriptors() {
    let t = gdt();
    assert_eq!(t[0].encode(), 0);
    assert_eq!(t[1].encode(), 0x00CF_9A00_0000_FFFF);
    assert_eq!(t[2].encode(), 0x00CF_9200_0000_FFFF);
}

#[test]
fn descriptor_fields_land_in_their_bytes() {
    let d = gdt_desc { limit_low: 0x1234, base_low: 0x5678, base_mid: 0x9A, access: 0xBC, gran: 0xDE, base_high: 0xF0 };
    assert_eq!(d.encode(), 0xF0DE_BC9A_5678_1234);
}

#[test]
fn idt_entry_layout() {
    assert_eq!(idt_entry(0x12345678), 0x1234_8E00_0008_5678);
    assert_eq!(idt_entry(0), 0x0000_8E00_0008_0000);
    assert_eq!(idt_entry(0xFFFF_FFFF), 0xFFFF_8E00_0008_FFFF);
}

#[test]
fn idt_entry_decodes_to_its_address() {
    for addr in [0u32, 1, 0x00101234, 0xC0000000, 0xFFFFFFFF] {
        let e = idt_entry(addr);
        assert_eq!((e & 0xFFFF) | ((e >> 48) << 16), addr as u64);
        assert_eq!((e >> 16) & 0xFFFF, 8);
        assert_eq!((e >> 32) & 0xFF, 0);
        assert_eq!((e >> 40) & 0xFF, 0x8E);
    }
}

#[test]
fn idt_write_entry_sets_one_entry() {
    let mut idt = IdtTable::new();
    idt_write_entry(&mut idt, 200, 0xABCD0123);
    assert_eq!(idt.entry(200), idt_entry(0xABCD0123));
    assert_eq!(idt.entry(199), 0);
    assert_eq!(idt.entry(255), 0);
}

#[test]
fn idt_init_sets_timer_and_keyboard() {
    let mut idt = IdtTable::new();
    let p = idt_init(&mut idt, 0x100100, 0x100200, 0x200000);
    assert_eq!(p, vec![ProcessorStep::LoadIdt { pointer: DescriptorPointer { length: 16383, table: 0x200000 } }]);
    assert_eq!(idt.entry(32), idt_entry(0x100100));
    assert_eq!(idt.entry(33), idt_entry(0x100200));
    assert_eq!(idt.entry(34), 0);
    assert_eq!(idt.entry(0), 0);
}

fn remap() -> Vec<PortWrite> {
    vec![
        pw(0x20, 0x11), pw(0xA0, 0x11), pw(0x21, 0x20), pw(0xA1, 0x28), pw(0x21, 0x04),
        pw(0xA1, 0x02), pw(0x21, 0x01), pw(0xA1, 0x01), pw(0x21, 0x0), pw(0xA1, 0x0),
    ]
}

fn pit() -> Vec<PortWrite> {
    vec![pw(0x43, 0x36), pw(0x40, 0x9B), pw(0x40, 0x2E)]
}

#[test]
fn pic_init_sequence() {
    let mut want = remap();
    want.extend(pit());
    assert_eq!(pic_init(), want);
    // the divisor bytes make up 1193180 / 100
    assert_eq!(0x9B + 0x2E * 256, 1193180 / 100);
}

#[test]
fn masked_pic_init_sequence() {
    let mut want = remap();
    want.push(pw(0x21, 0xfd));
    want.push(pw(0xa1, 0xff));
    want.extend(pit());
    assert_eq!(lib::x86_tables::pic_init(), want);
}

#[test]
fn initialize_processor_plan() {
    let mut idt = IdtTable::new();
    let s = initialize_processor(&mut idt, 0x1000, 0x2000, 0x3000, 0x4000);
    assert_eq!(
        s.steps,
        vec![
            ProcessorStep::LoadGdt { pointer: DescriptorPointer { length: 23, table: 0x1000 } },
            ProcessorStep::ReloadSegments,
            ProcessorStep::LoadIdt { pointer: DescriptorPointer { length: 16383, table: 0x2000 } },
        ]
    );
    assert_eq!(idt.entry(32), idt_entry(0x3000));
    assert_eq!(idt.entry(33), idt_entry(0x4000));
    let mut want = remap();
    want.extend(pit());
    assert_eq!(s.pic, want);
}

#[test]
fn keymap_values() {
    assert_eq!(keymap(0), 0);
    assert_eq!(keymap(1), 27);
    assert_eq!(keymap(2), b'1');
    assert_eq!(keymap(14), 8);
    assert_eq!(keymap(28), b'\n');
    assert_eq!(keymap(30), b'a');
    assert_eq!(keymap(57), b' ');
    assert_eq!(keymap(74), b'-');
    assert_eq!(keymap(78), b'+');
}

#[test]
fn keyboard_press_is_echoed() {
    let mut c = InterruptCount::new();
    assert!(reads_scancode(33));
    let a = interrupt_handler(&mut c, &regs(33), Some(0x1E));
    assert_eq!(a.echo, Some('a'));
    assert_eq!(a.eoi, vec![pw(0x20, 0x20)]);
    assert_eq!(c.ints, 1);
}

#[test]
fn keyboard_release_is_not_echoed() {
    let mut c = InterruptCount::new();
    let a = interrupt_handler(&mut c, &regs(33), Some(0x9E));
    assert_eq!(a.echo, None);
    assert_eq!(c.ints, 1);
}

#[test]
fn other_vectors_only_counted_and_acknowledged() {
    let mut c = InterruptCount::new();
    assert!(!reads_scancode(32));
    let a = interrupt_handler(&mut c, &regs(32), None);
    assert_eq!(a.echo, None);
    assert_eq!(a.eoi, vec![pw(0x20, 0x20)]);
    let b = interrupt_handler(&mut c, &regs(44), None);
    assert_eq!(b.eoi, vec![pw(0xA0, 0x20), pw(0x20, 0x20)]);
    assert_eq!(c.ints, 2);
}
