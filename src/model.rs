use crate::buffer::{cell_index, ScreenChar};
use crate::color::ColorCode;
use vstd::prelude::*;

verus! {

/// What a writer shows and where it stands: the cells row after row, the
/// column of the next character on the bottom row, and the current colour.
pub struct Screen {
    pub cells: Seq<ScreenChar>,
    pub column: nat,
    pub color: ColorCode,
}

/// The line-feed byte.
pub const LINE_FEED: u8 = 0x0a;

/// The glyph shown in place of a byte that is neither printable nor a line feed.
pub const PLACEHOLDER: u8 = 0xfe;

/// A blank cell: a space in the given colour.
pub open spec fn blank(color: ColorCode) -> ScreenChar {
    ScreenChar { ascii_char: 0x20, color_code: color }
}

/// Printable ASCII: `0x20` to `0x7e`.
pub open spec fn is_printable(b: u8) -> bool {
    0x20 <= b <= 0x7e
}

/// The byte that text output hands on for `b`.
pub open spec fn sanitized(b: u8) -> u8 {
    if is_printable(b) || b == LINE_FEED {
        b
    } else {
        PLACEHOLDER
    }
}

/// Every row moved up by one, the top row dropped, the bottom row blank.
pub open spec fn scrolled(cells: Seq<ScreenChar>, color: ColorCode) -> Seq<ScreenChar> {
    Seq::new(2000, |k: int| if k < 1920 { cells[k + 80] } else { blank(color) })
}

/// The cells with one row filled with blanks.
pub open spec fn cleared(cells: Seq<ScreenChar>, row: int, color: ColorCode) -> Seq<ScreenChar> {
    Seq::new(
        cells.len(),
        |k: int| if cell_index(row, 0) <= k < cell_index(row + 1, 0) { blank(color) } else { cells[k] },
    )
}

/// The screen after a line feed: scrolled, and the column back at 0.
pub open spec fn after_new_line(s: Screen) -> Screen {
    Screen { cells: scrolled(s.cells, s.color), column: 0, color: s.color }
}

/// The screen after one byte: a line feed starts a new line; any other byte
/// goes to the bottom row at the column, after a new line if the row is full.
pub open spec fn after_byte(s: Screen, b: u8) -> Screen {
    if b == LINE_FEED {
        after_new_line(s)
    } else {
        let t = if s.column >= 80 { after_new_line(s) } else { s };
        Screen {
            cells: t.cells.update(
                cell_index(24, t.column as int),
                ScreenChar { ascii_char: b, color_code: t.color },
            ),
            column: t.column + 1,
            color: t.color,
        }
    }
}

/// The screen after text: each byte in turn, sanitized.
pub open spec fn after_text(s: Screen, bytes: Seq<u8>) -> Screen
    decreases bytes.len(),
{
    if bytes.len() == 0 {
        s
    } else {
        after_byte(after_text(s, bytes.drop_last()), sanitized(bytes.last()))
    }
}

} // verus!
