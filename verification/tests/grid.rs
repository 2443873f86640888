use kernel_core::vga::Color;
use kernel_core::vga::ColorCode;
use kernel_core::vga::Writer;
use kernel_core::vga::BUFFER_HEIGHT;
use kernel_core::vga::BUFFER_WIDTH;
use kernel_core::vga::FILL_GLYPH;
use kernel_core::vga::LINE_FEED;
use kernel_core::vga::UNPRINTABLE_GLYPH;

#[test]
fn printable_bytes_round_trip() {
    for b in 0x20u8..=0x7e {
        let mut w = Writer::new();
        w.write_string(&[b]);
        assert_eq!(w.char_at(0, 0), b);
    }
}

#[test]
fn unprintable_bytes_become_placeholder() {
    for b in (0u8..0x20).chain(0x7fu8..=0xff) {
        if b == LINE_FEED {
            continue;
        }
        let mut w = Writer::new();
        w.write_string(&[b]);
        assert_eq!(w.char_at(0, 0), UNPRINTABLE_GLYPH);
    }
}

#[test]
fn line_feed_passes_through_as_line_break() {
    let mut w = Writer::new();
    w.write_string(b"a\nb");
    assert_eq!(w.char_at(0, 0), b'a');
    assert_eq!(w.char_at(0, 1), FILL_GLYPH);
    assert_eq!(w.char_at(1, 0), b'b');
}

#[test]
fn scroll_discards_top_row() {
    let mut w = Writer::new();
    // 26 one-letter lines into the 25-row grid: writing the 26th line forces
    // one scroll, so line 1 is discarded and row 0 ends up holding line 2.
    for i in 0..26u8 {
        w.write_byte(b'a' + i);
        if i < 25 {
            w.write_byte(LINE_FEED);
        }
    }
    assert_eq!(w.char_at(0, 0), b'b');
    assert_eq!(w.char_at(BUFFER_HEIGHT - 1, 0), b'a' + 25);
}

#[test]
fn single_line_readback() {
    let mut w = Writer::new();
    let s = b"Some test string that fits on a single line";
    w.set_position(0, 0);
    w.write_string(s);
    for (i, &b) in s.iter().enumerate() {
        assert_eq!(w.char_at(0, i), b);
    }
    for c in s.len()..BUFFER_WIDTH {
        assert_eq!(w.char_at(0, c), FILL_GLYPH);
    }
}

#[test]
fn writes_past_bottom_never_fail() {
    let mut w = Writer::new();
    for _ in 0..BUFFER_HEIGHT + 1 {
        w.write_string(b"test\n");
    }
    assert_eq!(w.char_at(BUFFER_HEIGHT - 2, 0), b't');
    assert_eq!(w.char_at(BUFFER_HEIGHT - 1, 0), FILL_GLYPH);
}

#[test]
fn long_line_wraps() {
    let mut w = Writer::new();
    for _ in 0..BUFFER_WIDTH + 1 {
        w.write_byte(b'x');
    }
    assert_eq!(w.char_at(0, BUFFER_WIDTH - 1), b'x');
    assert_eq!(w.char_at(1, 0), b'x');
}

#[test]
fn non_ascii_stored_as_placeholder() {
    let mut w = Writer::new();
    w.write_string("ö".as_bytes());
    assert_eq!(w.char_at(0, 0), UNPRINTABLE_GLYPH);
    assert_eq!(w.char_at(0, 1), UNPRINTABLE_GLYPH);
}

#[test]
fn set_position_places_next_write() {
    let mut w = Writer::new();
    w.set_position(5, 10);
    w.write_byte(b'q');
    assert_eq!(w.char_at(5, 10), b'q');
}

#[test]
fn clear_row_fills_with_spaces() {
    let mut w = Writer::new();
    w.write_string(b"abc");
    w.clear_row(0);
    assert_eq!(w.char_at(0, 0), FILL_GLYPH);
    assert_eq!(w.char_at(0, 1), FILL_GLYPH);
    assert_eq!(w.char_at(0, 2), FILL_GLYPH);
}

#[test]
fn color_code_packs_background_high() {
    assert_eq!(ColorCode::new(Color::LightCyan, Color::Black).value(), 11);
    assert_eq!(ColorCode::new(Color::White, Color::Blue).value(), 16 + 15);
    assert_eq!(ColorCode::new(Color::Black, Color::White).value(), 15 * 16);
}
