use crate::buffer::{cell_index, ScreenChar};
use crate::model::{
    after_byte, after_new_line, after_text, blank, is_printable, sanitized, Screen, LINE_FEED,
    PLACEHOLDER,
};
use vstd::prelude::*;

verus! {

/// Text written in two parts, one after the other, leaves the screen as the
/// whole text written at once: nothing can come between the parts.
pub proof fn lemma_after_text_concat(s: Screen, a: Seq<u8>, b: Seq<u8>)
    ensures
        after_text(s, a + b) == after_text(after_text(s, a), b),
    decreases b.len(),
{
    if b.len() == 0 {
        assert(a + b =~= a);
    } else {
        assert((a + b).drop_last() =~= a + b.drop_last());
        assert((a + b).last() == b.last());
        lemma_after_text_concat(s, a, b.drop_last());
    }
}

/// Printable text of at most one row, written from column 0, lands on the
/// bottom row from column 0 on, in the current colour; the column is then
/// its length, and no other cell changes.
pub proof fn lemma_short_line(s: Screen, text: Seq<u8>)
    requires
        s.cells.len() == 2000,
        s.column == 0,
        text.len() <= 80,
        forall|i: int| 0 <= i < text.len() ==> is_printable(#[trigger] text[i]),
    ensures
        after_text(s, text).column == text.len(),
        after_text(s, text).color == s.color,
        after_text(s, text).cells.len() == 2000,
        forall|i: int|
            0 <= i < text.len() ==> #[trigger] after_text(s, text).cells[cell_index(24, i)] == (
            ScreenChar { ascii_char: text[i], color_code: s.color }),
        forall|k: int|
            0 <= k < 2000 && !(cell_index(24, 0) <= k < cell_index(24, text.len() as int)) ==> #[trigger] after_text(s, text).cells[k]
                == s.cells[k],
    decreases text.len(),
{
    if text.len() > 0 {
        let init = text.drop_last();
        lemma_short_line(s, init);
        assert(sanitized(text.last()) == text.last());
    }
}

/// Right after a line feed the column is 0, and the rows written so far
/// have moved up by one.
pub proof fn lemma_line_feed(s: Screen, text: Seq<u8>)
    ensures
        after_text(s, text.push(LINE_FEED)) == after_new_line(after_text(s, text)),
        after_text(s, text.push(LINE_FEED)).column == 0,
{
    assert(text.push(LINE_FEED).drop_last() =~= text);
}

/// The eighty-first printable character of a line written from column 0
/// goes to column 0 of a new bottom row; the first eighty are then on the
/// row above.
pub proof fn lemma_wrap(s: Screen, text: Seq<u8>)
    requires
        s.cells.len() == 2000,
        s.column == 0,
        text.len() == 81,
        forall|i: int| 0 <= i < text.len() ==> is_printable(#[trigger] text[i]),
    ensures
        after_text(s, text).cells[cell_index(24, 0)] == (ScreenChar {
            ascii_char: text[80],
            color_code: s.color,
        }),
        after_text(s, text).column == 1,
        forall|i: int|
            0 <= i < 80 ==> #[trigger] after_text(s, text).cells[cell_index(23, i)] == (ScreenChar {
                ascii_char: text[i],
                color_code: s.color,
            }),
{
    let line = text.drop_last();
    lemma_short_line(s, line);
    assert(sanitized(text.last()) == text.last());
    let t = after_text(s, line);
    assert forall|i: int| 0 <= i < 80 implies #[trigger] after_text(s, text).cells[cell_index(23, i)] == (ScreenChar {
        ascii_char: text[i],
        color_code: s.color,
    }) by {
        assert(t.cells[cell_index(24, i)] == (ScreenChar { ascii_char: line[i], color_code: s.color }));
    }
}

/// A line feed moves every row up by one: the top row's content is gone,
/// each other row is found one row higher, and the bottom row is blank.
pub proof fn lemma_scroll(s: Screen)
    requires
        s.cells.len() == 2000,
    ensures
        forall|row: int, col: int|
            0 <= row < 24 && 0 <= col < 80 ==> #[trigger] after_text(s, seq![LINE_FEED]).cells[cell_index(row, col)]
                == s.cells[cell_index(row + 1, col)],
        forall|col: int|
            0 <= col < 80 ==> #[trigger] after_text(s, seq![LINE_FEED]).cells[cell_index(24, col)] == blank(s.color),
        after_text(s, seq![LINE_FEED]).column == 0,
{
    assert(seq![LINE_FEED].drop_last() =~= Seq::<u8>::empty());
    assert(after_text(s, Seq::<u8>::empty()) == s);
    assert(seq![LINE_FEED].last() == LINE_FEED);
}

/// A byte that is neither printable nor a line feed is shown as the
/// placeholder glyph, never as itself.
pub proof fn lemma_placeholder(s: Screen, b: u8)
    requires
        s.cells.len() == 2000,
        s.column < 80,
        !is_printable(b),
        b != LINE_FEED,
    ensures
        after_text(s, seq![b]) == after_byte(s, PLACEHOLDER),
        after_text(s, seq![b]).cells[cell_index(24, s.column as int)].ascii_char == PLACEHOLDER,
        b != PLACEHOLDER ==> after_text(s, seq![b]).cells[cell_index(24, s.column as int)].ascii_char != b,
{
    assert(seq![b].drop_last() =~= Seq::<u8>::empty());
    assert(after_text(s, Seq::<u8>::empty()) == s);
    assert(seq![b].last() == b);
}

} // verus!
