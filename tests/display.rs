use vga_text::buffer::{Buffer, ScreenChar, BUFFER_HEIGHT, BUFFER_WIDTH};
use vga_text::color::{Color, ColorCode};
use vga_text::console::{_print, console_writer, default_color, print_characters};
use vga_text::writer::Writer;

fn blank_cell(code: ColorCode) -> ScreenChar {
    ScreenChar { ascii_char: b' ', color_code: code }
}

fn fresh_writer() -> Writer {
    let code = default_color();
    console_writer(Buffer::new(blank_cell(code)))
}

fn row_text(w: &Writer, row: usize, len: usize) -> Vec<u8> {
    (0..len).map(|c| w.cell(row, c).ascii_char).collect()
}

fn all_cells(w: &Writer) -> Vec<ScreenChar> {
    let mut v = Vec::new();
    for r in 0..BUFFER_HEIGHT {
        for c in 0..BUFFER_WIDTH {
            v.push(w.cell(r, c));
        }
    }
    v
}

#[test]
fn color_code_packs_background_high() {
    assert_eq!(ColorCode::new(Color::Yellow, Color::Black).0, 0x0e);
    assert_eq!(ColorCode::new(Color::White, Color::Blue).0, 0x1f);
    assert_eq!(ColorCode::new(Color::Black, Color::White).0, 0xf0);
    assert_eq!(ColorCode::new(Color::LightGreen, Color::Red).0, 0x4a);
    let code = ColorCode::new(Color::Pink, Color::Cyan);
    assert_eq!(code.foreground(), 13);
    assert_eq!(code.background(), 3);
}

#[test]
fn color_values_follow_palette() {
    let colors = [
        Color::Black, Color::Blue, Color::Green, Color::Cyan, Color::Red, Color::Magenta,
        Color::Brown, Color::LightGrey, Color::DarkGrey, Color::LightBlue, Color::LightGreen,
        Color::LightCyan, Color::LightRed, Color::Pink, Color::Yellow, Color::White,
    ];
    for (i, c) in colors.iter().enumerate() {
        assert_eq!(c.value() as usize, i);
    }
}

#[test]
fn default_color_is_yellow_on_black() {
    assert_eq!(default_color().0, 0x0e);
    let w = fresh_writer();
    assert_eq!(w.column(), 0);
    assert_eq!(w.color_code(), ColorCode(0x0e));
}

#[test]
fn screen_char_device_word() {
    let c = ScreenChar { ascii_char: b'A', color_code: ColorCode(0x0e) };
    assert_eq!(c.to_raw(), 0x0e41);
    assert_eq!(ScreenChar::from_raw(0x1f7a), ScreenChar { ascii_char: b'z', color_code: ColorCode(0x1f) });
    assert_eq!(ScreenChar::from_raw(c.to_raw()), c);
}

#[test]
fn buffer_write_then_read() {
    let fill = ScreenChar { ascii_char: b'.', color_code: ColorCode(0x07) };
    let mut b = Buffer::new(fill);
    assert_eq!(b.read(0, 0), fill);
    assert_eq!(b.read(24, 79), fill);
    let x = ScreenChar { ascii_char: b'x', color_code: ColorCode(0x4f) };
    b.write(3, 7, x);
    assert_eq!(b.read(3, 7), x);
    assert_eq!(b.read(3, 6), fill);
    assert_eq!(b.read(3, 8), fill);
    assert_eq!(b.read(4, 7), fill);
}

#[test]
fn short_text_lands_on_bottom_row() {
    let mut w = fresh_writer();
    w.write_string("Hello, world!");
    assert_eq!(w.column(), 13);
    for (i, b) in "Hello, world!".bytes().enumerate() {
        assert_eq!(w.cell(24, i), ScreenChar { ascii_char: b, color_code: ColorCode(0x0e) });
    }
    assert_eq!(w.cell(24, 13), blank_cell(ColorCode(0x0e)));
    assert_eq!(w.cell(23, 0), blank_cell(ColorCode(0x0e)));
}

#[test]
fn full_row_without_wrap() {
    let mut w = fresh_writer();
    let line: String = std::iter::repeat('#').take(80).collect();
    w.write_string(&line);
    assert_eq!(w.column(), 80);
    assert_eq!(row_text(&w, 24, 80), line.as_bytes().to_vec());
    assert_eq!(w.cell(23, 0), blank_cell(ColorCode(0x0e)));
}

#[test]
fn line_feed_splits_rows() {
    let mut w = fresh_writer();
    w.write_string("ab\n");
    assert_eq!(w.column(), 0);
    w.write_string("cd");
    assert_eq!(w.column(), 2);
    assert_eq!(row_text(&w, 23, 2), b"ab".to_vec());
    assert_eq!(row_text(&w, 24, 2), b"cd".to_vec());
    assert_eq!(w.cell(24, 2), blank_cell(ColorCode(0x0e)));
}

#[test]
fn line_feed_alone_resets_column() {
    let mut w = fresh_writer();
    w.write_string("abc");
    w.write_byte(b'\n');
    assert_eq!(w.column(), 0);
    assert_eq!(row_text(&w, 23, 3), b"abc".to_vec());
    assert_eq!(row_text(&w, 24, 3), b"   ".to_vec());
}

#[test]
fn eighty_first_character_wraps() {
    let mut w = fresh_writer();
    let text: String = (0..81u8).map(|i| (b'!' + (i % 90)) as char).collect();
    w.write_string(&text);
    assert_eq!(w.column(), 1);
    assert_eq!(w.cell(24, 0).ascii_char, text.as_bytes()[80]);
    assert_eq!(row_text(&w, 23, 80), text.as_bytes()[..80].to_vec());
    assert_eq!(w.cell(24, 1), blank_cell(ColorCode(0x0e)));
}

#[test]
fn scroll_discards_top_row() {
    let mut w = fresh_writer();
    for r in 0..25u8 {
        let line: String = std::iter::repeat((b'A' + r) as char).take(10).collect();
        w.write_string(&line);
        if r < 24 {
            w.write_string("\n");
        }
    }
    for r in 0..25usize {
        assert_eq!(row_text(&w, r, 10), vec![b'A' + r as u8; 10]);
    }
    w.write_string("\n");
    for r in 0..24usize {
        assert_eq!(row_text(&w, r, 10), vec![b'B' + r as u8; 10]);
    }
    for c in 0..80 {
        assert_eq!(w.cell(24, c), blank_cell(ColorCode(0x0e)));
    }
    assert_eq!(w.column(), 0);
}

#[test]
fn non_printable_byte_becomes_placeholder() {
    let mut w = fresh_writer();
    w.write_string("\u{1}");
    assert_eq!(w.cell(24, 0).ascii_char, 0xfe);
    assert_eq!(w.column(), 1);
    w.write_string("\té");
    assert_eq!(row_text(&w, 24, 4), vec![0xfe, 0xfe, 0xfe, 0xfe]);
    assert_eq!(w.column(), 4);
}

#[test]
fn write_byte_stores_byte_unchanged() {
    let mut w = fresh_writer();
    w.write_byte(0x01);
    w.write_byte(b'Q');
    assert_eq!(row_text(&w, 24, 2), vec![0x01, b'Q']);
    assert_eq!(w.column(), 2);
}

#[test]
fn writer_colour_is_used_for_cells() {
    let code = ColorCode::new(Color::White, Color::Blue);
    let mut w = Writer::new(code, Buffer::new(blank_cell(ColorCode(0))));
    w.write_string("x\ny");
    assert_eq!(w.cell(23, 0), ScreenChar { ascii_char: b'x', color_code: code });
    assert_eq!(w.cell(24, 0), ScreenChar { ascii_char: b'y', color_code: code });
    assert_eq!(w.cell(24, 1), blank_cell(code));
    assert_eq!(w.cell(0, 0), blank_cell(ColorCode(0)));
}

#[test]
fn back_to_back_prints_stay_contiguous() {
    let mut a = fresh_writer();
    _print(&mut a, "first call, line one\nline two ");
    _print(&mut a, "second call\n");
    let mut b = fresh_writer();
    _print(&mut b, "first call, line one\nline two second call\n");
    assert_eq!(all_cells(&a), all_cells(&b));
    assert_eq!(a.column(), b.column());
    assert_eq!(row_text(&a, 23, 20), b"line two second call".to_vec());
    assert_eq!(row_text(&a, 22, 20), b"first call, line one".to_vec());
}

#[test]
fn character_table_rows() {
    let mut w = fresh_writer();
    print_characters(&mut w);
    assert_eq!(w.column(), 1);
    assert_eq!(row_text(&w, 15, 14), b"VGA text test:".to_vec());
    assert_eq!(row_text(&w, 16, 1), b" ".to_vec());
    assert_eq!(row_text(&w, 17, 16), b" !\"#$%&'()*+,-. ".to_vec());
    assert_eq!(row_text(&w, 18, 11), b"/012345678 ".to_vec());
    assert_eq!(row_text(&w, 19, 8), b"9:;<=>? ".to_vec());
    assert_eq!(row_text(&w, 20, 27), b"@ABCDEFGHIJKLMNOPQRSTUVWXY ".to_vec());
    assert_eq!(row_text(&w, 21, 7), b"Z[\\]^_ ".to_vec());
    assert_eq!(row_text(&w, 22, 27), b"`abcdefghijklmnopqrstuvwxy ".to_vec());
    assert_eq!(row_text(&w, 23, 5), b"z{|} ".to_vec());
    assert_eq!(row_text(&w, 24, 2), b"~ ".to_vec());
}

#[test]
fn character_table_holds_every_printable_once() {
    let mut w = fresh_writer();
    print_characters(&mut w);
    let mut seen = Vec::new();
    for r in 17..BUFFER_HEIGHT {
        for c in 0..BUFFER_WIDTH {
            let b = w.cell(r, c).ascii_char;
            if b != b' ' || c == 0 && r == 17 {
                seen.push(b);
            }
        }
    }
    let expected: Vec<u8> = (0x20..=0x7eu8).collect();
    assert_eq!(seen, expected);
}

#[test]
fn new_line_shifts_rows_and_blanks_bottom() {
    let mut w = fresh_writer();
    w.write_string("top\nmiddle\nbottom");
    w.new_line();
    assert_eq!(w.column(), 0);
    assert_eq!(row_text(&w, 21, 3), b"top".to_vec());
    assert_eq!(row_text(&w, 22, 6), b"middle".to_vec());
    assert_eq!(row_text(&w, 23, 6), b"bottom".to_vec());
    for c in 0..80 {
        assert_eq!(w.cell(24, c), blank_cell(ColorCode(0x0e)));
    }
}

#[test]
fn clear_row_blanks_one_row_only() {
    let code = ColorCode::new(Color::Red, Color::Green);
    let fill = ScreenChar { ascii_char: b'#', color_code: ColorCode(0) };
    let mut w = Writer::new(code, Buffer::new(fill));
    w.clear_row(7);
    for c in 0..80 {
        assert_eq!(w.cell(7, c), blank_cell(code));
        assert_eq!(w.cell(6, c), fill);
        assert_eq!(w.cell(8, c), fill);
    }
    assert_eq!(w.column(), 0);
}
