use crate::buffer::{cell_index, Buffer, ScreenChar, BUFFER_HEIGHT, BUFFER_WIDTH};
use crate::color::ColorCode;
use crate::model::{blank, after_byte, after_new_line, after_text, cleared, scrolled, Screen, LINE_FEED, PLACEHOLDER};
use vstd::prelude::*;
use vstd::string::StringSliceAdditionalSpecFns;

verus! {

/// A cursor over the display: text goes to the bottom row, and the rows
/// scroll up when a line ends.
pub struct Writer {
    column_pos: usize,
    color_code: ColorCode,
    buffer: Buffer,
}

impl View for Writer {
    type V = Screen;

    closed spec fn view(&self) -> Screen {
        Screen { cells: self.buffer@, column: self.column_pos as nat, color: self.color_code }
    }
}

impl Writer {
    /// One cell per position, and the column within the row or just past it.
    pub open spec fn wf(&self) -> bool {
        self@.cells.len() == 2000 && self@.column <= 80
    }

    /// A writer at column 0 that owns `buffer` and writes in `color_code`.
    pub fn new(color_code: ColorCode, buffer: Buffer) -> (r: Writer)
        requires
            buffer.wf(),
        ensures
            r.wf(),
            r@ == (Screen { cells: buffer@, column: 0, color: color_code }),
    {
        Writer { column_pos: 0, color_code, buffer }
    }

    /// The column of the next character on the bottom row.
    pub fn column(&self) -> (r: usize)
        ensures
            r == self@.column,
    {
        self.column_pos
    }

    /// The colour in which the writer writes.
    pub fn color_code(&self) -> (r: ColorCode)
        ensures
            r == self@.color,
    {
        self.color_code
    }

    /// The cell at `row`, `col`.
    pub fn cell(&self, row: usize, col: usize) -> (r: ScreenChar)
        requires
            self.wf(),
            row < BUFFER_HEIGHT,
            col < BUFFER_WIDTH,
        ensures
            r == self@.cells[cell_index(row as int, col as int)],
    {
        self.buffer.read(row, col)
    }

    /// Writes one byte: a line feed starts a new line; any other byte is
    /// stored as it is on the bottom row, after a new line if the row is full.
    pub fn write_byte(&mut self, byte: u8)
        requires
            old(self).wf(),
        ensures
            final(self).wf(),
            final(self)@ == after_byte(old(self)@, byte),
    {
        if byte == LINE_FEED {
            self.new_line();
        } else {
            if self.column_pos >= BUFFER_WIDTH {
                self.new_line();
            }
            let row = BUFFER_HEIGHT - 1;
            let col = self.column_pos;
            let color_code = self.color_code;
            self.buffer.write(row, col, ScreenChar { ascii_char: byte, color_code });
            self.column_pos = self.column_pos + 1;
        }
    }

    /// Writes each byte of `s`; a byte that is neither printable ASCII nor a
    /// line feed is shown as the placeholder glyph.
    pub fn write_string(&mut self, s: &str)
        requires
            old(self).wf(),
        ensures
            final(self).wf(),
            final(self)@ == after_text(old(self)@, s.spec_bytes()),
    {
        let bytes = s.as_bytes();
        let mut i: usize = 0;
        while i < bytes.len()
            invariant
                i <= bytes@.len(),
                bytes@ == s.spec_bytes(),
                self.wf(),
                self@ == after_text(old(self)@, bytes@.take(i as int)),
            decreases bytes@.len() - i,
        {
            let byte = bytes[i];
            if (0x20 <= byte && byte <= 0x7e) || byte == LINE_FEED {
                self.write_byte(byte);
            } else {
                self.write_byte(PLACEHOLDER);
            }
            assert(bytes@.take(i + 1).drop_last() =~= bytes@.take(i as int));
            i = i + 1;
        }
        assert(bytes@.take(i as int) =~= bytes@);
    }

    /// Moves every row up by one, dropping the top row, blanks the bottom
    /// row and returns to column 0.
    pub fn new_line(&mut self)
        requires
            old(self).wf(),
        ensures
            final(self).wf(),
            final(self)@ == after_new_line(old(self)@),
            forall|row: int, col: int|
                0 <= row < 24 && 0 <= col < 80 ==> #[trigger] final(self)@.cells[cell_index(row, col)]
                    == old(self)@.cells[cell_index(row + 1, col)],
            forall|col: int|
                0 <= col < 80 ==> #[trigger] final(self)@.cells[cell_index(24, col)] == blank(
                    old(self)@.color,
                ),
            final(self)@.column == 0,
            final(self)@.color == old(self)@.color,
    {
        let ghost start = self@.cells;
        let mut row: usize = 1;
        while row < BUFFER_HEIGHT
            invariant
                1 <= row <= BUFFER_HEIGHT,
                self.color_code == old(self).color_code,
                self.column_pos == old(self).column_pos,
                self.buffer.wf(),
                forall|j: int| 0 <= j < (row - 1) * 80 ==> #[trigger] self.buffer@[j] == start[j + 80],
                forall|j: int| (row - 1) * 80 <= j < 2000 ==> #[trigger] self.buffer@[j] == start[j],
            decreases BUFFER_HEIGHT - row,
        {
            let mut col: usize = 0;
            while col < BUFFER_WIDTH
                invariant
                    1 <= row < BUFFER_HEIGHT,
                    col <= BUFFER_WIDTH,
                    self.color_code == old(self).color_code,
                    self.column_pos == old(self).column_pos,
                    self.buffer.wf(),
                    forall|j: int| 0 <= j < (row - 1) * 80 + col ==> #[trigger] self.buffer@[j] == start[j + 80],
                    forall|j: int| (row - 1) * 80 + col <= j < 2000 ==> #[trigger] self.buffer@[j] == start[j],
                decreases BUFFER_WIDTH - col,
            {
                let c = self.buffer.read(row, col);
                assert(c == start[cell_index(row as int, col as int)]);
                let ghost prev = self.buffer@;
                self.buffer.write(row - 1, col, c);
                assert(forall|j: int| 0 <= j < 2000 ==> self.buffer@[j] == if j == cell_index(row - 1, col as int) { c } else { prev[j] });
                col = col + 1;
            }
            row = row + 1;
        }
        self.clear_row(BUFFER_HEIGHT - 1);
        self.column_pos = 0;
        assert(self@.cells =~= scrolled(start, self.color_code));
    }

    /// Fills `row` with blanks in the current colour.
    pub fn clear_row(&mut self, row: usize)
        requires
            old(self).wf(),
            row < BUFFER_HEIGHT,
        ensures
            final(self).wf(),
            final(self)@ == (Screen { cells: cleared(old(self)@.cells, row as int, old(self)@.color), ..old(self)@ }),
            forall|col: int|
                0 <= col < 80 ==> #[trigger] final(self)@.cells[cell_index(row as int, col)] == blank(
                    old(self)@.color,
                ),
            forall|k: int|
                0 <= k < 2000 && !(cell_index(row as int, 0) <= k < cell_index(row as int + 1, 0))
                    ==> #[trigger] final(self)@.cells[k] == old(self)@.cells[k],
    {
        let space = ScreenChar { ascii_char: 0x20, color_code: self.color_code };
        let ghost start = self@.cells;
        let mut col: usize = 0;
        while col < BUFFER_WIDTH
            invariant
                col <= BUFFER_WIDTH,
                row < BUFFER_HEIGHT,
                self.color_code == old(self).color_code,
                self.column_pos == old(self).column_pos,
                space == blank(self.color_code),
                self.buffer.wf(),
                forall|j: int| 0 <= j < 2000 ==> #[trigger] self.buffer@[j] == if cell_index(row as int, 0) <= j < cell_index(row as int, col as int) { space } else { start[j] },
            decreases BUFFER_WIDTH - col,
        {
            let ghost prev = self.buffer@;
            self.buffer.write(row, col, space);
            assert(forall|j: int| 0 <= j < 2000 ==> self.buffer@[j] == if j == cell_index(row as int, col as int) { space } else { prev[j] });
            col = col + 1;
        }
        assert(self@.cells =~= cleared(start, row as int, self.color_code));
    }
}

} // verus!
