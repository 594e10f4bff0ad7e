//! A keyboard-only processor setup: the same GDT and IDT, the PICs masked
//! down to the keyboard line, and an interrupt handler that counts every
//! interrupt and echoes key presses through the keymap.
use vstd::prelude::*;
pub use crate::interrupt::{Registers, PortWrite};
pub use crate::x86::x86_tables::{
    gdt_desc, gdt, gdt_init, idt_entry, idt_write_entry, idt_init, IdtTable, DescriptorPointer,
    ProcessorStep,
};
use crate::interrupt::{eoi_spec, eoi_writes};
use crate::x86::x86_tables::{pic_remap_spec, pit_setup_spec, pit_setup};

verus! {

/// Number of entries in the keymap.
pub const KEYMAP_LEN: usize = 79;

/// Data port of the PS/2 keyboard controller.
pub const KEYBOARD_DATA: u16 = 0x60;

/// The vector of the keyboard interrupt.
pub const KEYBOARD_VECTOR: u32 = 33;

/// The US keyboard layout: the byte for each set-1 make code, 0 for keys
/// that give no character.
pub open spec fn keymap_spec() -> Seq<u8> {
    seq![
        0, 27,
        '1' as u8, '2' as u8, '3' as u8, '4' as u8, '5' as u8, '6' as u8, '7' as u8, '8' as u8,
        '9' as u8, '0' as u8, '-' as u8, '=' as u8, 8,
        '\t' as u8,
        'q' as u8, 'w' as u8, 'e' as u8, 'r' as u8,
        't' as u8, 'y' as u8, 'u' as u8, 'i' as u8, 'o' as u8, 'p' as u8, '[' as u8, ']' as u8, '\n' as u8,
        0,
        'a' as u8, 's' as u8, 'd' as u8, 'f' as u8, 'g' as u8, 'h' as u8, 'j' as u8, 'k' as u8, 'l' as u8, ';' as u8,
        '\'' as u8, '`' as u8, 0,
        '\\' as u8, 'z' as u8, 'x' as u8, 'c' as u8, 'v' as u8, 'b' as u8, 'n' as u8,
        'm' as u8, ',' as u8, '.' as u8, '/' as u8, 0,
        '*' as u8,
        0,
        ' ' as u8,
        0,
        0,
        0, 0, 0, 0, 0, 0, 0, 0,
        0,
        0,
        0,
        0,
        0,
        0,
        '-' as u8,
        0,
        0,
        0,
        '+' as u8,
    ]
}

/// The byte that the keymap gives for `scancode`.
pub fn keymap(scancode: u8) -> (c: u8)
    requires
        scancode < KEYMAP_LEN,
    ensures
        c == keymap_spec()[scancode as int],
{
    let km: Vec<u8> = vec![
        0, 27,
        '1' as u8, '2' as u8, '3' as u8, '4' as u8, '5' as u8, '6' as u8, '7' as u8, '8' as u8,
        '9' as u8, '0' as u8, '-' as u8, '=' as u8, 8,
        '\t' as u8,
        'q' as u8, 'w' as u8, 'e' as u8, 'r' as u8,
        't' as u8, 'y' as u8, 'u' as u8, 'i' as u8, 'o' as u8, 'p' as u8, '[' as u8, ']' as u8, '\n' as u8,
        0,
        'a' as u8, 's' as u8, 'd' as u8, 'f' as u8, 'g' as u8, 'h' as u8, 'j' as u8, 'k' as u8, 'l' as u8, ';' as u8,
        '\'' as u8, '`' as u8, 0,
        '\\' as u8, 'z' as u8, 'x' as u8, 'c' as u8, 'v' as u8, 'b' as u8, 'n' as u8,
        'm' as u8, ',' as u8, '.' as u8, '/' as u8, 0,
        '*' as u8,
        0,
        ' ' as u8,
        0,
        0,
        0, 0, 0, 0, 0, 0, 0, 0,
        0,
        0,
        0,
        0,
        0,
        0,
        '-' as u8,
        0,
        0,
        0,
        '+' as u8,
    ];
    proof {
        assert(km@ =~= keymap_spec());
    }
    km[scancode as usize]
}

/// The interrupt counter of this setup.
pub struct InterruptCount {
    pub ints: u32,
}

impl InterruptCount {
    /// No interrupt taken yet.
    pub fn new() -> (c: InterruptCount)
        ensures
            c.ints == 0,
    {
        InterruptCount { ints: 0 }
    }
}

/// What this setup does on an interrupt: possibly echo a character, then
/// acknowledge the interrupt.
pub struct KeyboardAction {
    pub echo: Option<char>,
    pub eoi: Vec<PortWrite>,
}

/// Whether the interrupt on vector `int_num` reads a scancode from the
/// keyboard's data port.
pub fn reads_scancode(int_num: u32) -> (b: bool)
    ensures
        b == (int_num == KEYBOARD_VECTOR),
{
    int_num == KEYBOARD_VECTOR
}

/// The character echoed for `scancode`: a key press (bit 7 clear) shows
/// the keymap's character, a key release shows nothing.
pub open spec fn echo_spec(scancode: Option<u8>) -> Option<char> {
    match scancode {
        Some(s) => if s < 0x80 {
            Some(keymap_spec()[s as int] as char)
        } else {
            None
        },
        None => None,
    }
}

/// Counts the interrupt; for the keyboard vector, `scancode` is the byte
/// read from the keyboard's data port and a key press is echoed; then the
/// interrupt is acknowledged at the PICs. A key press past the end of the
/// keymap would be read out of its bounds, so it is left out.
pub fn interrupt_handler(count: &mut InterruptCount, regs: &Registers, scancode: Option<u8>) -> (a: KeyboardAction)
    requires
        old(count).ints < u32::MAX,
        scancode is Some <==> regs.int_num == KEYBOARD_VECTOR,
        scancode matches Some(s) ==> (s < 0x80 ==> s < KEYMAP_LEN),
    ensures
        final(count).ints == old(count).ints + 1,
        a.echo == echo_spec(scancode),
        a.eoi@ == eoi_spec(regs.int_num),
{
    count.ints = count.ints + 1;
    let mut echo: Option<char> = None;
    if regs.int_num == KEYBOARD_VECTOR {
        if let Some(s) = scancode {
            assert((s & 0x80 == 0) == (s < 0x80)) by (bit_vector);
            if (s & 0x80) == 0 {
                echo = Some(keymap(s) as char);
            }
        }
    }
    let eoi = eoi_writes(regs.int_num);
    KeyboardAction { echo, eoi }
}

/// The interrupt masks of this setup: on the master PIC every line but
/// the keyboard's (line 1) is masked, on the slave every line.
pub open spec fn pic_masks_spec() -> Seq<PortWrite> {
    seq![PortWrite { port: 0x21, value: 0xfd }, PortWrite { port: 0xa1, value: 0xff }]
}

/// The writes that program the PICs, mask all but the keyboard and set up
/// the timer, in order.
pub fn pic_init() -> (w: Vec<PortWrite>)
    ensures
        w@ == pic_remap_spec() + pic_masks_spec() + pit_setup_spec(),
{
    let mut w: Vec<PortWrite> = Vec::new();
    w.push(PortWrite { port: 0x20, value: 0x11 });
    w.push(PortWrite { port: 0xA0, value: 0x11 });
    w.push(PortWrite { port: 0x21, value: 0x20 });
    w.push(PortWrite { port: 0xA1, value: 0x28 });
    w.push(PortWrite { port: 0x21, value: 0x04 });
    w.push(PortWrite { port: 0xA1, value: 0x02 });
    w.push(PortWrite { port: 0x21, value: 0x01 });
    w.push(PortWrite { port: 0xA1, value: 0x01 });
    w.push(PortWrite { port: 0x21, value: 0x0 });
    w.push(PortWrite { port: 0xA1, value: 0x0 });
    w.push(PortWrite { port: 0x21, value: 0xfd });
    w.push(PortWrite { port: 0xa1, value: 0xff });
    let mut t = pit_setup();
    w.append(&mut t);
    proof {
        assert(w@ =~= pic_remap_spec() + pic_masks_spec() + pit_setup_spec());
    }
    w
}

/// Whether IRQ line `line` is masked by the master mask `master` and the
/// slave mask `slave` (a set bit masks the line).
pub open spec fn line_masked(master: u8, slave: u8, line: u8) -> bool {
    if line < 8 {
        (master >> line) & 1 == 1
    } else {
        (slave >> ((line - 8) as u8)) & 1 == 1
    }
}

/// With the masks of this setup the keyboard line is the only IRQ line
/// that gets through.
pub proof fn lemma_only_keyboard_unmasked(line: u8)
    requires
        line < 16,
    ensures
        !line_masked(pic_masks_spec()[0].value, pic_masks_spec()[1].value, line) <==> line == 1,
{
    if line < 8 {
        assert(((0xfdu8 >> line) & 1 == 1) <==> line != 1) by (bit_vector)
            requires
                line < 8,
        ;
    } else {
        let l: u8 = (line - 8) as u8;
        assert((0xffu8 >> l) & 1 == 1) by (bit_vector)
            requires
                l < 8,
        ;
    }
}

/// The keymap, entry by entry as ASCII codes: Escape (27) at make code 1,
/// the digit row `1234567890-=` at 2..13, Backspace (8) at 14, Tab (9) at
/// 15, `qwertyuiop[]` at 16..27, Enter (10) at 28, `asdfghjkl;'` and the
/// backquote at 30..41, backslash and `zxcvbnm,./` at 43..53, `*` at 55,
/// the space bar at 57, keypad `-` at 74 and keypad `+` at 78; the modifier,
/// function and cursor keys give 0.
pub proof fn lemma_keymap_values()
    ensures
        keymap_spec().len() == KEYMAP_LEN,
        keymap_spec()[0] == 0,
        keymap_spec()[1] == 27,
        keymap_spec()[2] == 49,
        keymap_spec()[3] == 50,
        keymap_spec()[4] == 51,
        keymap_spec()[5] == 52,
        keymap_spec()[6] == 53,
        keymap_spec()[7] == 54,
        keymap_spec()[8] == 55,
        keymap_spec()[9] == 56,
        keymap_spec()[10] == 57,
        keymap_spec()[11] == 48,
        keymap_spec()[12] == 45,
        keymap_spec()[13] == 61,
        keymap_spec()[14] == 8,
        keymap_spec()[15] == 9,
        keymap_spec()[16] == 113,
        keymap_spec()[17] == 119,
        keymap_spec()[18] == 101,
        keymap_spec()[19] == 114,
        keymap_spec()[20] == 116,
        keymap_spec()[21] == 121,
        keymap_spec()[22] == 117,
        keymap_spec()[23] == 105,
        keymap_spec()[24] == 111,
        keymap_spec()[25] == 112,
        keymap_spec()[26] == 91,
        keymap_spec()[27] == 93,
        keymap_spec()[28] == 10,
        keymap_spec()[29] == 0,
        keymap_spec()[30] == 97,
        keymap_spec()[31] == 115,
        keymap_spec()[32] == 100,
        keymap_spec()[33] == 102,
        keymap_spec()[34] == 103,
        keymap_spec()[35] == 104,
        keymap_spec()[36] == 106,
        keymap_spec()[37] == 107,
        keymap_spec()[38] == 108,
        keymap_spec()[39] == 59,
        keymap_spec()[40] == 39,
        keymap_spec()[41] == 96,
        keymap_spec()[42] == 0,
        keymap_spec()[43] == 92,
        keymap_spec()[44] == 122,
        keymap_spec()[45] == 120,
        keymap_spec()[46] == 99,
        keymap_spec()[47] == 118,
        keymap_spec()[48] == 98,
        keymap_spec()[49] == 110,
        keymap_spec()[50] == 109,
        keymap_spec()[51] == 44,
        keymap_spec()[52] == 46,
        keymap_spec()[53] == 47,
        keymap_spec()[54] == 0,
        keymap_spec()[55] == 42,
        keymap_spec()[56] == 0,
        keymap_spec()[57] == 32,
        keymap_spec()[58] == 0,
        keymap_spec()[59] == 0,
        keymap_spec()[60] == 0,
        keymap_spec()[61] == 0,
        keymap_spec()[62] == 0,
        keymap_spec()[63] == 0,
        keymap_spec()[64] == 0,
        keymap_spec()[65] == 0,
        keymap_spec()[66] == 0,
        keymap_spec()[67] == 0,
        keymap_spec()[68] == 0,
        keymap_spec()[69] == 0,
        keymap_spec()[70] == 0,
        keymap_spec()[71] == 0,
        keymap_spec()[72] == 0,
        keymap_spec()[73] == 0,
        keymap_spec()[74] == 45,
        keymap_spec()[75] == 0,
        keymap_spec()[76] == 0,
        keymap_spec()[77] == 0,
        keymap_spec()[78] == 43,
{
}

/// Every key press (make code with bit 7 clear) inside the keymap is echoed
/// as its keymap byte, whatever that byte is; a key release (bit 7 set) and
/// an interrupt that read no scancode echo nothing.
pub proof fn lemma_echo(scancode: u8)
    ensures
        scancode < KEYMAP_LEN ==> echo_spec(Some(scancode)) == Some(keymap_spec()[scancode as int] as char),
        scancode >= 0x80 ==> echo_spec(Some(scancode)) is None,
        echo_spec(None) is None,
{
}

} // verus!
