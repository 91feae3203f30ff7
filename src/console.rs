use crate::buffer::Buffer;
use crate::color::{packed, Color, ColorCode};
use crate::laws::lemma_after_text_concat;
use crate::model::{after_byte, after_text, sanitized, Screen, LINE_FEED};
use crate::writer::Writer;
use vstd::prelude::*;
use vstd::string::StringSliceAdditionalSpecFns;

verus! {

/// The colour of the shared console: yellow on black.
pub fn default_color() -> (r: ColorCode)
    ensures
        r.0 == packed(Color::Yellow, Color::Black),
{
    ColorCode::new(Color::Yellow, Color::Black)
}

/// The shared console's writer: column 0, the default colour, over `buffer`.
pub fn console_writer(buffer: Buffer) -> (r: Writer)
    requires
        buffer.wf(),
    ensures
        r.wf(),
        r@ == (Screen { cells: buffer@, column: 0, color: r@.color }),
        r@.color.0 == packed(Color::Yellow, Color::Black),
{
    Writer::new(default_color(), buffer)
}

/// One print call: the whole of `text` goes out through `writer`, which
/// the caller holds exclusively for the duration of the call.
pub fn _print(writer: &mut Writer, text: &str)
    requires
        old(writer).wf(),
    ensures
        final(writer).wf(),
        final(writer)@ == after_text(old(writer)@, text.spec_bytes()),
{
    writer.write_string(text);
}

/// Positions in the character table before which a line break goes.
pub open spec fn is_table_break(i: int) -> bool {
    i == 15 || i == 25 || i == 32 || i == 58 || i == 64 || i == 90 || i == 94
}

/// Entry `i` of the character table: printable character `0x20 + i`,
/// preceded by a line break at the break positions.
pub open spec fn table_entry(i: int) -> Seq<u8> {
    if is_table_break(i) {
        seq![LINE_FEED, (0x20 + i) as u8]
    } else {
        seq![(0x20 + i) as u8]
    }
}

/// The first `n` entries of the character table, in order.
pub open spec fn table_prefix(n: int) -> Seq<u8>
    decreases n,
{
    if n <= 0 {
        Seq::empty()
    } else {
        table_prefix(n - 1) + table_entry(n - 1)
    }
}

/// The character table: every printable ASCII character, space to tilde,
/// with line breaks between them at the break positions.
pub open spec fn character_table() -> Seq<u8> {
    table_prefix(95)
}

/// The printable ASCII characters, space to tilde.
pub open spec fn printable_run(n: int) -> Seq<u8> {
    Seq::new(n as nat, |i: int| (0x20 + i) as u8)
}

/// Leaving out the line breaks, the first `n` entries of the table are the
/// first `n` printable characters in increasing order.
proof fn lemma_table_prefix_chars(n: int)
    requires
        0 <= n <= 95,
    ensures
        table_prefix(n).filter(|b: u8| b != LINE_FEED) == printable_run(n),
    decreases n,
{
    let keep = |b: u8| b != LINE_FEED;
    if n == 0 {
        assert(table_prefix(0).filter(keep) =~= printable_run(0));
    } else {
        lemma_table_prefix_chars(n - 1);
        Seq::filter_distributes_over_add(table_prefix(n - 1), table_entry(n - 1), keep);
        let c = (0x20 + (n - 1)) as u8;
        let e = table_entry(n - 1);
        if is_table_break(n - 1) {
            assert(e.drop_last() =~= seq![LINE_FEED]);
            assert(seq![LINE_FEED].drop_last() =~= Seq::<u8>::empty());
            reveal_with_fuel(Seq::filter, 3);
            assert(e.filter(keep) =~= seq![c]);
        } else {
            assert(e.drop_last() =~= Seq::<u8>::empty());
            reveal_with_fuel(Seq::filter, 2);
            assert(e.filter(keep) =~= seq![c]);
        }
        assert(printable_run(n - 1) + seq![c] =~= printable_run(n));
    }
}

/// The table holds the whole printable set: without its line breaks it is
/// every character from space to tilde, each once, in increasing order.
pub proof fn lemma_table_is_full_set()
    ensures
        character_table().filter(|b: u8| b != LINE_FEED) == printable_run(95),
{
    lemma_table_prefix_chars(95);
}

/// The heading printed above the character table.
pub const TABLE_HEADING: &'static str = "VGA text test:\n\n";

/// Prints the heading and then the printable ASCII characters, from space
/// to tilde, broken into lines at fixed positions.
pub fn print_characters(writer: &mut Writer)
    requires
        old(writer).wf(),
    ensures
        final(writer).wf(),
        final(writer)@ == after_text(old(writer)@, TABLE_HEADING.spec_bytes() + character_table()),
{
    _print(writer, TABLE_HEADING);
    let ghost mid = writer@;
    let first: u8 = 0x20;
    let last: u8 = 0x7e;
    let mut value: u8 = first;
    let mut index: usize = 0;
    while index < 95
        invariant
            index <= 95,
            last == 0x7e,
            index < 95 ==> value == 0x20 + index,
            writer.wf(),
            writer@ == after_text(mid, table_prefix(index as int)),
        decreases 95 - index,
    {
        let ghost before = writer@;
        let is_break = index == 15 || index == 25 || index == 32 || index == 58 || index == 64
            || index == 90 || index == 94;
        if is_break {
            writer.write_byte(LINE_FEED);
        }
        writer.write_byte(value);
        proof {
            let e = table_entry(index as int);
            lemma_after_text_concat(mid, table_prefix(index as int), e);
            assert(table_prefix(index + 1) == table_prefix(index as int) + e);
            assert(sanitized(value) == value);
            assert(sanitized(LINE_FEED) == LINE_FEED);
            assert(after_text(before, Seq::<u8>::empty()) == before);
            if is_break {
                assert(e.drop_last() =~= seq![LINE_FEED]);
                assert(seq![LINE_FEED].drop_last() =~= Seq::<u8>::empty());
                assert(after_text(before, seq![LINE_FEED]) == after_byte(before, LINE_FEED));
            } else {
                assert(e.drop_last() =~= Seq::<u8>::empty());
            }
            assert(after_text(before, e) == writer@);
        }
        if value < last {
            value = value + 1;
        }
        index = index + 1;
    }
    proof {
        lemma_after_text_concat(old(writer)@, TABLE_HEADING.spec_bytes(), character_table());
    }
}

} // verus!
