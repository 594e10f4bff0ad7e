//! The VGA text console: the 32 KiB text window of 16-bit cells (character
//! in the low byte, colour attribute in the high byte), of which the first
//! 25 rows of 80 are shown, with a cursor that wraps at the right edge and
//! scrolls the screen up at the bottom.
use vstd::prelude::*;

verus! {

/// Attribute byte for white text on a black background, in the high byte:
/// background colour 0 in bits 12..16, foreground colour 15 in bits 8..12.
pub const WHITE_ON_BLACK: u16 = 0x0F00;

/// Columns of the screen.
pub const WIDTH: usize = 80;

/// Rows shown on the screen.
pub const ROWS: usize = 25;

/// Cells shown on the screen.
pub const VISIBLE_CELLS: usize = 2000;

/// Cells of the VGA text window (0xb8000 to 0xc0000).
pub const CELLS: usize = 16384;

/// What a console is: the cursor column and row and the contents of every
/// cell.
pub ghost struct Screen {
    pub x: int,
    pub y: int,
    pub cells: Seq<u16>,
}

/// The cell value that shows `ch` in white on black: the low 16 bits of the
/// character with the attribute byte.
pub open spec fn glyph(ch: char) -> u16 {
    (((ch as u32) & 0xFFFF) as u16) | WHITE_ON_BLACK
}

/// The index in the buffer of the cell at column `x`, row `y`.
pub open spec fn cell_index(x: int, y: int) -> int {
    y * 80 + x
}

/// A screen whose buffer is the whole text window and whose cursor stands
/// on a visible row or on the row below them, which the next scroll brings
/// into view.
pub open spec fn screen_wf(s: Screen) -> bool {
    &&& s.cells.len() == CELLS
    &&& 0 <= s.x < 80
    &&& 0 <= s.y <= 25
}

/// The buffer after scrolling: the 25 visible rows and the row below them
/// move one row up, the top row is lost, that row below is blank and the
/// rest of the window is as it was.
pub open spec fn scrolled(cells: Seq<u16>) -> Seq<u16> {
    cells.subrange(80, 2080) + Seq::new(80, |i: int| 0u16) + cells.subrange(2080, cells.len() as int)
}

/// The buffer after clearing the screen: every visible cell is zero and the
/// rest of the window is as it was.
pub open spec fn cleared(cells: Seq<u16>) -> Seq<u16> {
    Seq::new(2000, |i: int| 0u16) + cells.subrange(2000, cells.len() as int)
}

/// Moves the cursor to the start of the next row when it has run past the
/// right edge, then scrolls when it has run past the bottom.
pub open spec fn settle(s: Screen) -> Screen {
    let s1 = if s.x >= 80 { Screen { x: 0, y: s.y + 1, cells: s.cells } } else { s };
    if s1.y > 25 { Screen { x: s1.x, y: 25, cells: scrolled(s1.cells) } } else { s1 }
}

/// Shows `ch` at the cursor and moves the cursor one column on.
pub open spec fn print_at_cursor(s: Screen, ch: char) -> Screen {
    settle(Screen { x: s.x + 1, y: s.y, cells: s.cells.update(cell_index(s.x, s.y), glyph(ch)) })
}

/// What one character does to the console: a newline moves to the start of
/// the next row; a tab changes nothing; a backspace, unless the cursor is in
/// the first column, blanks the cell left of the cursor and moves onto it;
/// any other character is shown at the cursor, which moves one column on.
pub open spec fn put_char(s: Screen, ch: char) -> Screen {
    if ch == '\n' {
        settle(Screen { x: 0, y: s.y + 1, cells: s.cells })
    } else if ch == '\t' {
        settle(s)
    } else if ch == '\x08' {
        if s.x > 0 {
            settle(Screen { x: s.x - 1, y: s.y, cells: s.cells.update(cell_index(s.x - 1, s.y), glyph(' ')) })
        } else {
            settle(s)
        }
    } else {
        print_at_cursor(s, ch)
    }
}

/// What a string does to the console: its characters, one after the other.
pub open spec fn put_str(s: Screen, chars: Seq<char>) -> Screen
    decreases chars.len(),
{
    if chars.len() == 0 {
        s
    } else {
        put_char(put_str(s, chars.drop_last()), chars.last())
    }
}

/// A text console over a buffer of cells.
pub struct Display {
    x: isize,
    y: isize,
    cells: Vec<u16>,
}

impl View for Display {
    type V = Screen;

    closed spec fn view(&self) -> Screen {
        Screen { x: self.x as int, y: self.y as int, cells: self.cells@ }
    }
}

impl Display {
    /// The console is well formed: the buffer has all its cells and the
    /// cursor stands inside it.
    pub open spec fn wf(&self) -> bool {
        screen_wf(self@)
    }

    /// A console with the cursor in the top left corner and every cell zero.
    pub fn new() -> (d: Display)
        ensures
            d.wf(),
            d@.x == 0,
            d@.y == 0,
            d@.cells == Seq::new(CELLS as nat, |i: int| 0u16),
    {
        let mut cells: Vec<u16> = Vec::new();
        let mut i: usize = 0;
        while i < CELLS
            invariant
                i <= CELLS,
                cells@ == Seq::new(i as nat, |j: int| 0u16),
            decreases CELLS - i,
        {
            cells.push(0);
            i = i + 1;
        }
        Display { x: 0, y: 0, cells }
    }

    /// The contents of the cell at `index`.
    pub fn cell(&self, index: usize) -> (c: u16)
        requires
            self.wf(),
            index < CELLS,
        ensures
            c == self@.cells[index as int],
    {
        self.cells[index]
    }

    /// The cursor column.
    pub fn cursor_x(&self) -> (x: isize)
        ensures
            x == self@.x,
    {
        self.x
    }

    /// The cursor row.
    pub fn cursor_y(&self) -> (y: isize)
        ensures
            y == self@.y,
    {
        self.y
    }

    /// Shows `ch` at column `x`, row `y`, leaving the cursor where it is.
    pub fn putchxy(&mut self, ch: char, x: isize, y: isize)
        requires
            old(self)@.cells.len() == CELLS,
            isize::MIN <= y * 80 <= isize::MAX,
            0 <= cell_index(x as int, y as int) < CELLS,
        ensures
                        final(self)@ == (Screen {
                cells: old(self)@.cells.update(cell_index(x as int, y as int), glyph(ch)),
                ..old(self)@
            }),
    {
        let idx: usize = (y * 80 + x) as usize;
        let v: u16 = ((ch as u32) & 0xFFFF) as u16 | WHITE_ON_BLACK;
        self.cells.set(idx, v);
    }

    /// Clears the screen: zeroes all 2000 visible cells.
    pub fn clear(&mut self)
        requires
            old(self)@.cells.len() == CELLS,
        ensures
                        final(self)@ == (Screen { cells: cleared(old(self)@.cells), ..old(self)@ }),
    {
        let mut i: usize = 0;
        while i < VISIBLE_CELLS
            invariant
                i <= VISIBLE_CELLS,
                self.cells@.len() == CELLS,
                self.x == old(self).x,
                self.y == old(self).y,
                forall|j: int| 0 <= j < i ==> self.cells@[j] == 0u16,
                forall|j: int| i <= j < CELLS ==> self.cells@[j] == old(self).cells@[j],
            decreases VISIBLE_CELLS - i,
        {
            self.cells.set(i, 0);
            i = i + 1;
        }
        assert(self.cells@ =~= cleared(old(self).cells@));
    }

    /// Moves the visible rows and the row below them one row up; the top
    /// row is lost and the row below the screen is zeroed.
    pub fn scrolldown(&mut self)
        requires
            old(self)@.cells.len() == CELLS,
        ensures
                        final(self)@ == (Screen { cells: scrolled(old(self)@.cells), ..old(self)@ }),
    {
        let mut i: usize = 0;
        while i < 2000
            invariant
                i <= 2000,
                self.cells@.len() == CELLS,
                self.x == old(self).x,
                self.y == old(self).y,
                forall|j: int| 0 <= j < i ==> self.cells@[j] == old(self).cells@[j + 80],
                forall|j: int| i <= j < CELLS ==> self.cells@[j] == old(self).cells@[j],
            decreases 2000 - i,
        {
            let v: u16 = self.cells[i + 80];
            self.cells.set(i, v);
            i = i + 1;
        }
        while i < 2080
            invariant
                2000 <= i <= 2080,
                self.cells@.len() == CELLS,
                self.x == old(self).x,
                self.y == old(self).y,
                forall|j: int| 0 <= j < 2000 ==> self.cells@[j] == old(self).cells@[j + 80],
                forall|j: int| 2000 <= j < i ==> self.cells@[j] == 0u16,
                forall|j: int| 2080 <= j < CELLS ==> self.cells@[j] == old(self).cells@[j],
            decreases 2080 - i,
        {
            self.cells.set(i, 0);
            i = i + 1;
        }
        assert(self.cells@ =~= scrolled(old(self).cells@));
    }

    /// Writes one character to the console: see `put_char`.
    pub fn putch(&mut self, ch: char)
        requires
            old(self).wf(),
        ensures
            final(self).wf(),
            final(self)@ == put_char(old(self)@, ch),
        decreases (if ch == '\x08' { 1int } else { 0int }),
    {
        if ch == '\n' {
            self.y = self.y + 1;
            self.x = 0;
        } else if ch == '\t' {
            // The tab key leaves the cursor where it is.
        } else if ch == '\x08' {
            if self.x > 0 {
                self.x = self.x - 1;
                self.putch(' ');
                self.x = self.x - 1;
            }
        } else {
            self.putchxy(ch, self.x, self.y);
            self.x = self.x + 1;
        }
        if self.x >= 80 {
            self.x = 0;
            self.y = self.y + 1;
        }
        if self.y > 25 {
            self.scrolldown();
            self.y = 25;
        }
    }

    /// Writes every character of `s` to the console, in order.
    pub fn write_str(&mut self, s: &str)
        requires
            old(self).wf(),
        ensures
            final(self).wf(),
            final(self)@ == put_str(old(self)@, s@),
    {
        let ghost start = self@;
        proof {
            broadcast use vstd::string::axiom_spec_iter;
        }
        for c in it: s.chars()
            invariant
                self.wf(),
                it.seq() == s@,
                self@ == put_str(start, s@.take(it.index() as int)),
        {
            proof {
                assert(s@.take(it.index() as int + 1).drop_last() =~= s@.take(it.index() as int));
            }
            self.putch(c);
        }
        proof {
            assert(s@.take(s@.len() as int) =~= s@);
        }
    }
}

/// Every character keeps the cursor inside the buffer.
pub proof fn lemma_put_char_wf(s: Screen, ch: char)
    requires
        screen_wf(s),
    ensures
        screen_wf(put_char(s, ch)),
{
}

/// Every string keeps the cursor inside the buffer.
pub proof fn lemma_put_str_wf(s: Screen, chars: Seq<char>)
    requires
        screen_wf(s),
    ensures
        screen_wf(put_str(s, chars)),
    decreases chars.len(),
{
    if chars.len() > 0 {
        lemma_put_str_wf(s, chars.drop_last());
        lemma_put_char_wf(put_str(s, chars.drop_last()), chars.last());
    }
}

/// Writing two strings one after the other is writing their concatenation.
pub proof fn lemma_put_str_append(s: Screen, a: Seq<char>, b: Seq<char>)
    ensures
        put_str(s, a + b) == put_str(put_str(s, a), b),
    decreases b.len(),
{
    if b.len() == 0 {
        assert(a + b =~= a);
    } else {
        lemma_put_str_append(s, a, b.drop_last());
        assert((a + b).drop_last() =~= a + b.drop_last());
        assert((a + b).last() == b.last());
    }
}

/// A backspace right after a character that was shown without wrapping
/// brings the cursor back and leaves a blank in that cell.
pub proof fn lemma_backspace_undoes_char(s: Screen, ch: char)
    requires
        screen_wf(s),
        s.x < 79,
        ch != '\n',
        ch != '\t',
        ch != '\x08',
    ensures
        put_char(put_char(s, ch), '\x08') == (Screen {
            x: s.x,
            y: s.y,
            cells: s.cells.update(cell_index(s.x, s.y), glyph(' ')),
        }),
{
    let t = put_char(s, ch);
    assert(t.cells =~= s.cells.update(cell_index(s.x, s.y), glyph(ch)));
    assert(put_char(t, '\x08').cells =~= s.cells.update(cell_index(s.x, s.y), glyph(' ')));
}

/// Scrolling moves cell `j + 80` to cell `j` on the 25 visible rows, blanks
/// all 80 cells of the row below them, and leaves the rest of the window.
pub proof fn lemma_scrolled_cells(cells: Seq<u16>)
    requires
        cells.len() == 16384,
    ensures
        scrolled(cells).len() == 16384,
        forall|j: int| 0 <= j < 2000 ==> #[trigger] scrolled(cells)[j] == cells[j + 80],
        forall|j: int| 2000 <= j < 2080 ==> #[trigger] scrolled(cells)[j] == 0,
        forall|j: int| 2080 <= j < 16384 ==> #[trigger] scrolled(cells)[j] == cells[j],
{
}

/// Clearing zeroes the 2000 visible cells and leaves the rest of the
/// window.
pub proof fn lemma_cleared_cells(cells: Seq<u16>)
    requires
        cells.len() == 16384,
    ensures
        cleared(cells).len() == 16384,
        forall|j: int| 0 <= j < 2000 ==> #[trigger] cleared(cells)[j] == 0,
        forall|j: int| 2000 <= j < 16384 ==> #[trigger] cleared(cells)[j] == cells[j],
{
}

/// A newline moves the cursor to column 0 of the next row; from the row
/// below the screen it stays on that row and the screen scrolls: the rows
/// move up by 80 cells and the row below the screen is blank.
pub proof fn lemma_put_char_newline(s: Screen)
    requires
        screen_wf(s),
    ensures
        put_char(s, '\n').x == 0,
        s.y < 25 ==> put_char(s, '\n').y == s.y + 1 && put_char(s, '\n').cells == s.cells,
        s.y == 25 ==> put_char(s, '\n').y == 25,
        s.y == 25 ==> forall|j: int| 0 <= j < 2000 ==> #[trigger] put_char(s, '\n').cells[j] == s.cells[j + 80],
        s.y == 25 ==> forall|j: int| 2000 <= j < 2080 ==> #[trigger] put_char(s, '\n').cells[j] == 0,
        s.y == 25 ==> forall|j: int| 2080 <= j < 16384 ==> #[trigger] put_char(s, '\n').cells[j] == s.cells[j],
        put_char(s, '\n').cells.len() == 16384,
{
    lemma_scrolled_cells(s.cells);
}

/// A tab changes nothing.
pub proof fn lemma_put_char_tab(s: Screen)
    requires
        screen_wf(s),
    ensures
        put_char(s, '\t') == s,
{
}

/// A backspace in column `x > 0` writes a white-on-black space (0x0F20)
/// into the cell left of the cursor and moves the cursor onto it; in
/// column 0 it changes nothing.
pub proof fn lemma_put_char_backspace(s: Screen)
    requires
        screen_wf(s),
    ensures
        s.x > 0 ==> put_char(s, '\x08') == (Screen {
            x: s.x - 1,
            y: s.y,
            cells: s.cells.update(s.y * 80 + s.x - 1, 0x0F20u16),
        }),
        s.x == 0 ==> put_char(s, '\x08') == s,
{
    let v: u32 = ' ' as u32;
    assert(v == 32);
    assert((((v & 0xFFFF) as u16) | 0x0F00u16) == 0x0F20u16) by (bit_vector)
        requires
            v == 32,
    ;
    assert(glyph(' ') == 0x0F20u16);
}

/// Any other character goes into the cell under the cursor as its low 16
/// bits with the white-on-black attribute, and the cursor moves one column
/// right. At column 79 it moves instead to column 0 of the next row; from
/// the row below the screen it stays on that row and the screen scrolls, so
/// the character ends up at the end of the last visible row and the row
/// below is blank.
pub proof fn lemma_put_char_printable(s: Screen, ch: char)
    requires
        screen_wf(s),
        ch != '\n',
        ch != '\t',
        ch != '\x08',
    ensures
        ({
            let g: u16 = (((ch as u32) & 0xFFFF) as u16) | 0x0F00u16;
            let written = s.cells.update(s.y * 80 + s.x, g);
            let r = put_char(s, ch);
            &&& s.x < 79 ==> r == (Screen { x: s.x + 1, y: s.y, cells: written })
            &&& s.x == 79 && s.y < 25 ==> r == (Screen { x: 0, y: s.y + 1, cells: written })
            &&& s.x == 79 && s.y == 25 ==> {
                &&& r.x == 0
                &&& r.y == 25
                &&& r.cells.len() == 16384
                &&& r.cells[1999] == g
                &&& forall|j: int| 0 <= j < 2000 ==> #[trigger] r.cells[j] == written[j + 80]
                &&& forall|j: int| 2000 <= j < 2080 ==> #[trigger] r.cells[j] == 0
                &&& forall|j: int| 2080 <= j < 16384 ==> #[trigger] r.cells[j] == s.cells[j]
            }
        }),
{
    let written = s.cells.update(s.y * 80 + s.x, glyph(ch));
    lemma_scrolled_cells(written);
}

/// Writing a string is writing its characters one by one: a string with one
/// more character at its end is that string, then the character.
pub proof fn lemma_put_str_push(s: Screen, chars: Seq<char>, c: char)
    ensures
        put_str(s, chars.push(c)) == put_char(put_str(s, chars), c),
        put_str(s, Seq::empty()) == s,
        put_str(s, seq![c]) == put_char(s, c),
{
    assert(chars.push(c).drop_last() =~= chars);
    assert(seq![c].drop_last() =~= Seq::<char>::empty());
}

} // verus!
