use crate::color::ColorCode;
use vstd::prelude::*;
use volatile::Volatile;

verus! {

/// Number of rows of the display.
pub const BUFFER_HEIGHT: usize = 25;

/// Number of columns of the display.
pub const BUFFER_WIDTH: usize = 80;

/// Number of cells of the display, row after row.
pub const BUFFER_CELLS: usize = 2000;

/// One character position: the character code and its attribute byte.
#[derive(Clone, Copy, Debug, PartialEq, Eq, Structural)]
pub struct ScreenChar {
    pub ascii_char: u8,
    pub color_code: ColorCode,
}

/// The two bytes of a cell as the device reads them, as one little-endian
/// word: the character in the low byte, the attribute in the high byte.
pub open spec fn raw_of(c: ScreenChar) -> u16 {
    (c.ascii_char as u16) | ((c.color_code.0 as u16) << 8u16)
}

/// The cell that a device word holds.
pub open spec fn cell_of(w: u16) -> ScreenChar {
    ScreenChar { ascii_char: (w & 0xffu16) as u8, color_code: ColorCode((w >> 8u16) as u8) }
}

impl ScreenChar {
    /// The device word for this cell.
    pub fn to_raw(&self) -> (r: u16)
        ensures
            r == raw_of(*self),
            cell_of(r) == *self,
    {
        let a = self.ascii_char;
        let k = self.color_code.0;
        let r = (a as u16) | ((k as u16) << 8u16);
        assert((r & 0xffu16) as u8 == a && (r >> 8u16) as u8 == k) by (bit_vector)
            requires
                r == (a as u16) | ((k as u16) << 8u16),
        ;
        r
    }

    /// The cell that a device word holds.
    pub fn from_raw(w: u16) -> (r: ScreenChar)
        ensures
            r == cell_of(w),
    {
        ScreenChar { ascii_char: (w & 0xffu16) as u8, color_code: ColorCode((w >> 8u16) as u8) }
    }
}

/// volatile::Volatile: a value that is read and written only by volatile
/// loads and stores.
#[verifier::external_type_specification]
#[verifier::external_body]
#[verifier::reject_recursive_types(T)]
pub struct ExVolatile<T: Copy>(Volatile<T>);

/// The value that a volatile cell holds.
pub uninterp spec fn volatile_value(v: Volatile<u16>) -> u16;

/// Relies on volatile::Volatile::new: the new cell holds the given value.
#[verifier::external_body]
fn volatile_new(x: u16) -> (r: Volatile<u16>)
    ensures
        volatile_value(r) == x,
{
    Volatile::new(x)
}

/// Relies on volatile::Volatile::read: a volatile load of the held value.
#[verifier::external_body]
fn volatile_read(v: &Volatile<u16>) -> (r: u16)
    ensures
        r == volatile_value(*v),
{
    v.read()
}

/// Relies on volatile::Volatile::write: a volatile store of the new value.
#[verifier::external_body]
fn volatile_write(v: &mut Volatile<u16>, x: u16)
    ensures
        volatile_value(*final(v)) == x,
{
    v.write(x)
}

/// The display surface: `BUFFER_HEIGHT` rows of `BUFFER_WIDTH` cells, row
/// after row, each cell read and written only by volatile accesses.
pub struct Buffer {
    chars: Vec<Volatile<u16>>,
}

/// Index of the cell at a row and column, row after row of `BUFFER_WIDTH` cells.
pub open spec fn cell_index(row: int, col: int) -> int {
    row * 80 + col
}

impl View for Buffer {
    type V = Seq<ScreenChar>;

    /// The cells, row after row.
    closed spec fn view(&self) -> Seq<ScreenChar> {
        self.chars@.map_values(|v: Volatile<u16>| cell_of(volatile_value(v)))
    }
}

impl Buffer {
    /// The buffer has exactly one cell per position of the grid.
    pub open spec fn wf(&self) -> bool {
        self@.len() == BUFFER_CELLS
    }

    /// A buffer whose every cell holds `fill`.
    pub fn new(fill: ScreenChar) -> (r: Buffer)
        ensures
            r.wf(),
            r@ == Seq::new(BUFFER_CELLS as nat, |i: int| fill),
    {
        let raw = fill.to_raw();
        let mut chars: Vec<Volatile<u16>> = Vec::new();
        let mut i: usize = 0;
        while i < BUFFER_CELLS
            invariant
                i <= BUFFER_CELLS,
                chars@.len() == i,
                cell_of(raw) == fill,
                forall|j: int| 0 <= j < i ==> volatile_value(#[trigger] chars@[j]) == raw,
            decreases BUFFER_CELLS - i,
        {
            chars.push(volatile_new(raw));
            i = i + 1;
        }
        let r = Buffer { chars };
        assert(r@ =~= Seq::new(BUFFER_CELLS as nat, |i: int| fill));
        r
    }

    /// Volatile read of the cell at `row`, `col`.
    pub fn read(&self, row: usize, col: usize) -> (r: ScreenChar)
        requires
            self.wf(),
            row < BUFFER_HEIGHT,
            col < BUFFER_WIDTH,
        ensures
            r == self@[cell_index(row as int, col as int)],
    {
        ScreenChar::from_raw(volatile_read(&self.chars[row * BUFFER_WIDTH + col]))
    }

    /// Volatile write of `c` into the cell at `row`, `col`; no other cell changes.
    pub fn write(&mut self, row: usize, col: usize, c: ScreenChar)
        requires
            old(self).wf(),
            row < BUFFER_HEIGHT,
            col < BUFFER_WIDTH,
        ensures
            final(self)@ == old(self)@.update(cell_index(row as int, col as int), c),
    {
        let raw = c.to_raw();
        volatile_write(&mut self.chars[row * BUFFER_WIDTH + col], raw);
        assert(self@ =~= old(self)@.update(cell_index(row as int, col as int), c));
    }
}

} // verus!
