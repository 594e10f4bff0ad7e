use lib::vga::{Display, CELLS, WHITE_ON_BLACK};

fn cells(d: &Display) -> Vec<u16> {
    (0..CELLS).map(|i| d.cell(i)).collect()
}

#[test]
fn new_display_is_blank_at_origin() {
    let d = Display::new();
    assert_eq!(d.cursor_x(), 0);
    assert_eq!(d.cursor_y(), 0);
    assert!(cells(&d).iter().all(|&c| c == 0));
}

#[test]
fn attribute_is_white_on_black() {
    assert_eq!(WHITE_ON_BLACK, 0x0F00);
}

#[test]
fn printable_char_is_shown_and_cursor_moves() {
    let mut d = Display::new();
    d.putch('A');
    assert_eq!(d.cell(0), 0x0F41);
    assert_eq!(d.cursor_x(), 1);
    assert_eq!(d.cursor_y(), 0);
}

#[test]
fn wide_chars_keep_their_low_sixteen_bits() {
    let mut d = Display::new();
    d.putch('é');
    d.putch('\u{1F600}');
    assert_eq!(d.cell(0), 0x0FE9);
    assert_eq!(d.cell(1), 0xF600 | 0x0F00);
}

#[test]
fn newline_goes_to_next_row_start() {
    let mut d = Display::new();
    d.putch('x');
    d.putch('\n');
    assert_eq!((d.cursor_x(), d.cursor_y()), (0, 1));
}

#[test]
fn tab_changes_nothing() {
    let mut d = Display::new();
    d.putch('a');
    let before = cells(&d);
    d.putch('\t');
    assert_eq!((d.cursor_x(), d.cursor_y()), (1, 0));
    assert_eq!(cells(&d), before);
}

#[test]
fn backspace_blanks_previous_cell() {
    let mut d = Display::new();
    d.putch('a');
    d.putch('b');
    d.putch('\x08');
    assert_eq!((d.cursor_x(), d.cursor_y()), (1, 0));
    assert_eq!(d.cell(0), 0x0F61);
    assert_eq!(d.cell(1), 0x0F20);
}

#[test]
fn backspace_in_first_column_does_nothing() {
    let mut d = Display::new();
    d.putch('\n');
    let before = cells(&d);
    d.putch('\x08');
    assert_eq!((d.cursor_x(), d.cursor_y()), (0, 1));
    assert_eq!(cells(&d), before);
}

#[test]
fn line_wraps_at_eighty_columns() {
    let mut d = Display::new();
    for _ in 0..79 {
        d.putch('-');
    }
    assert_eq!((d.cursor_x(), d.cursor_y()), (79, 0));
    d.putch('+');
    assert_eq!((d.cursor_x(), d.cursor_y()), (0, 1));
    assert_eq!(d.cell(79), 0x0F2B);
}

#[test]
fn cursor_reaches_the_row_below_the_screen_then_scrolls() {
    let mut d = Display::new();
    d.putch('A');
    d.putch('\n');
    d.putch('B');
    for _ in 0..24 {
        d.putch('\n');
    }
    assert_eq!(d.cursor_y(), 25);
    assert_eq!(d.cell(0), 0x0F41);
    d.putch('C');
    assert_eq!(d.cell(2000), 0x0F43);
    d.putch('\n');
    assert_eq!((d.cursor_x(), d.cursor_y()), (0, 25));
    // everything moved one row up
    assert_eq!(d.cell(0), 0x0F42);
    assert_eq!(d.cell(1920), 0x0F43);
    assert!((2000..2080).all(|i| d.cell(i) == 0));
}

#[test]
fn scrolldown_moves_rows_up() {
    let mut d = Display::new();
    d.putchxy('q', 3, 1);
    d.putchxy('z', 0, 25);
    d.putchxy('w', 0, 26);
    d.scrolldown();
    assert_eq!(d.cell(3), 0x0F71);
    assert_eq!(d.cell(83), 0);
    assert_eq!(d.cell(1920), 0x0F7A);
    assert_eq!(d.cell(2000), 0);
    // rows further down the window do not move
    assert_eq!(d.cell(2080), 0x0F77);
}

#[test]
fn putchxy_writes_cell_without_moving_cursor() {
    let mut d = Display::new();
    d.putchxy('k', 5, 2);
    assert_eq!(d.cell(165), 0x0F6B);
    assert_eq!((d.cursor_x(), d.cursor_y()), (0, 0));
}

#[test]
fn clear_zeroes_every_visible_cell() {
    let mut d = Display::new();
    d.putchxy('a', 0, 0);
    d.putchxy('b', 39, 12);
    d.putchxy('c', 40, 12);
    d.putchxy('d', 79, 24);
    d.putchxy('e', 0, 25);
    d.putchxy('f', 0, 62);
    d.putch('g');
    d.clear();
    assert!((0..2000).all(|i| d.cell(i) == 0));
    // outside the screen the window keeps its contents
    assert_eq!(d.cell(2000), 0x0F65);
    assert_eq!(d.cell(4960), 0x0F66);
    // the cursor stays where it was
    assert_eq!((d.cursor_x(), d.cursor_y()), (1, 0));
}

#[test]
fn putchxy_reaches_the_whole_text_window() {
    let mut d = Display::new();
    d.putchxy('r', 10, 30);
    assert_eq!(d.cell(2410), 0x0F72);
    d.putchxy('s', -1, 1);
    assert_eq!(d.cell(79), 0x0F73);
    d.putchxy('t', 63, 204);
    assert_eq!(d.cell(CELLS - 1), 0x0F74);
}

#[test]
fn write_str_writes_each_char() {
    let mut d = Display::new();
    d.write_str("Hello World from Rust!\n");
    assert_eq!(d.cell(0), 0x0F48);
    assert_eq!(d.cell(21), 0x0F21);
    assert_eq!((d.cursor_x(), d.cursor_y()), (0, 1));
}

#[test]
fn write_str_of_concatenation_is_two_writes() {
    let mut one = Display::new();
    one.write_str("ab\tc\x08d\nefg");
    let mut two = Display::new();
    two.write_str("ab\tc");
    two.write_str("\x08d\nefg");
    assert_eq!(cells(&one), cells(&two));
    assert_eq!((one.cursor_x(), one.cursor_y()), (two.cursor_x(), two.cursor_y()));
}

#[test]
fn backspace_after_char_restores_cursor() {
    let mut d = Display::new();
    d.write_str("xy");
    d.putch('m');
    d.putch('\x08');
    assert_eq!((d.cursor_x(), d.cursor_y()), (2, 0));
    assert_eq!(d.cell(2), 0x0F20);
}
