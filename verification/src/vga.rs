//! Character-grid text sink: a fixed `BUFFER_HEIGHT x BUFFER_WIDTH` grid of
//! colored characters with a cursor.
//!
//! Writing advances the cursor; a line feed, or running past the last column,
//! moves to the next line; advancing past the last row scrolls the grid up by
//! one row, discarding the topmost row. Bytes outside the printable range are
//! stored as a fixed placeholder glyph. The memory-mapped video buffer that
//! displays the grid is hardware and lives outside the verified library; this
//! module holds the grid's content and all of its update logic.

use vstd::prelude::*;

verus! {

pub const BUFFER_WIDTH: usize = 80;

pub const BUFFER_HEIGHT: usize = 25;

/// Glyph stored for any input byte outside the printable range.
pub const UNPRINTABLE_GLYPH: u8 = 0xfe;

/// Glyph filling a cleared cell.
pub const FILL_GLYPH: u8 = 0x20;

pub const LINE_FEED: u8 = 0x0a;

#[derive(Clone, Copy, PartialEq, Eq, Structural, Debug)]
pub enum Color {
    Black,
    Blue,
    Green,
    Cyan,
    Red,
    Magenta,
    Brown,
    LightGray,
    DarkGray,
    LightBlue,
    LightGreen,
    LightCyan,
    LightRed,
    Pink,
    Yellow,
    White,
}

impl Color {
    /// The hardware color number of this color.
    pub open spec fn spec_value(self) -> u8 {
        match self {
            Color::Black => 0,
            Color::Blue => 1,
            Color::Green => 2,
            Color::Cyan => 3,
            Color::Red => 4,
            Color::Magenta => 5,
            Color::Brown => 6,
            Color::LightGray => 7,
            Color::DarkGray => 8,
            Color::LightBlue => 9,
            Color::LightGreen => 10,
            Color::LightCyan => 11,
            Color::LightRed => 12,
            Color::Pink => 13,
            Color::Yellow => 14,
            Color::White => 15,
        }
    }

    pub fn value(self) -> (r: u8)
        ensures
            r == self.spec_value(),
    {
        match self {
            Color::Black => 0,
            Color::Blue => 1,
            Color::Green => 2,
            Color::Cyan => 3,
            Color::Red => 4,
            Color::Magenta => 5,
            Color::Brown => 6,
            Color::LightGray => 7,
            Color::DarkGray => 8,
            Color::LightBlue => 9,
            Color::LightGreen => 10,
            Color::LightCyan => 11,
            Color::LightRed => 12,
            Color::Pink => 13,
            Color::Yellow => 14,
            Color::White => 15,
        }
    }
}

/// A foreground/background pair packed as the hardware expects: background in
/// the high four bits, foreground in the low four.
#[derive(Clone, Copy, PartialEq, Eq, Structural, Debug)]
pub struct ColorCode(u8);

impl ColorCode {
    pub closed spec fn spec_value(self) -> u8 {
        self.0
    }

    /// The packed byte as the hardware cell stores it.
    pub fn value(self) -> (r: u8)
        ensures
            r == self.spec_value(),
    {
        self.0
    }

    pub fn new(foreground: Color, background: Color) -> (r: ColorCode)
        ensures
            r.spec_value() == background.spec_value() * 16 + foreground.spec_value(),
    {
        let f = foreground.value();
        let b = background.value();
        proof {
            assert((b << 4) | f == b * 16 + f) by (bit_vector)
                requires
                    b < 16 && f < 16,
            ;
        }
        ColorCode((b << 4) | f)
    }
}

/// One grid cell: a character byte and its color pair.
#[derive(Clone, Copy, PartialEq, Eq, Structural, Debug)]
pub struct Character {
    pub ascii_character: u8,
    pub color_code: ColorCode,
}

/// Mathematical snapshot of a grid writer: the cell contents, the cursor,
/// and the color applied to new cells.
pub ghost struct GridState {
    pub grid: Seq<Seq<Character>>,
    pub row: int,
    pub col: int,
    pub color: ColorCode,
}

/// A well-formed snapshot: full-size grid, cursor inside it (the column may
/// rest one past the last cell, meaning the row is full).
pub open spec fn wf_state(s: GridState) -> bool {
    &&& s.grid.len() == BUFFER_HEIGHT
    &&& forall|r: int| 0 <= r < BUFFER_HEIGHT ==> (#[trigger] s.grid[r]).len() == BUFFER_WIDTH
    &&& 0 <= s.row < BUFFER_HEIGHT
    &&& 0 <= s.col <= BUFFER_WIDTH
}

/// A row of fill glyphs in the given color.
pub open spec fn blank_row(color: ColorCode) -> Seq<Character> {
    Seq::new(
        BUFFER_WIDTH as nat,
        |c: int| Character { ascii_character: FILL_GLYPH, color_code: color },
    )
}

/// Line feed: back to column zero on the next row; past the last row the
/// grid scrolls up by one, the topmost row is discarded and the freed last
/// row is blank.
pub open spec fn spec_new_line(s: GridState) -> GridState {
    if s.row + 1 < BUFFER_HEIGHT {
        GridState { grid: s.grid, row: s.row + 1, col: 0, color: s.color }
    } else {
        GridState {
            grid: s.grid.subrange(1, BUFFER_HEIGHT as int).push(blank_row(s.color)),
            row: BUFFER_HEIGHT - 1,
            col: 0,
            color: s.color,
        }
    }
}

/// Writing one byte: a line feed breaks the line; any other byte lands in
/// the cursor cell (after an implicit line break if the row is full) and
/// advances the column.
pub open spec fn spec_write_byte(s: GridState, byte: u8) -> GridState {
    if byte == LINE_FEED {
        spec_new_line(s)
    } else {
        let t = if s.col >= BUFFER_WIDTH {
            spec_new_line(s)
        } else {
            s
        };
        GridState {
            grid: t.grid.update(
                t.row,
                t.grid[t.row].update(
                    t.col,
                    Character { ascii_character: byte, color_code: s.color },
                ),
            ),
            row: t.row,
            col: t.col + 1,
            color: s.color,
        }
    }
}

/// What a written byte is stored as: printable bytes and the line feed pass
/// unchanged, everything else becomes the placeholder glyph.
pub open spec fn mapped_glyph(byte: u8) -> u8 {
    if (0x20 <= byte && byte <= 0x7e) || byte == LINE_FEED {
        byte
    } else {
        UNPRINTABLE_GLYPH
    }
}

/// Writing a string: each byte is mapped through `mapped_glyph` and written
/// in order.
pub open spec fn spec_write_string(s: GridState, bytes: Seq<u8>) -> GridState
    decreases bytes.len(),
{
    if bytes.len() == 0 {
        s
    } else {
        spec_write_string(spec_write_byte(s, mapped_glyph(bytes[0])), bytes.drop_first())
    }
}

/// The character-grid writer; its mathematical value is a `GridState`.
pub struct Writer {
    rows: Vec<Vec<Character>>,
    color_code: ColorCode,
    row_position: usize,
    column_position: usize,
}

impl Writer {
    /// The snapshot this writer currently holds.
    pub closed spec fn abs(self) -> GridState {
        GridState {
            grid: self.rows@.map_values(|r: Vec<Character>| r@),
            row: self.row_position as int,
            col: self.column_position as int,
            color: self.color_code,
        }
    }

    pub open spec fn wf(self) -> bool {
        wf_state(self.abs())
    }

    /// The snapshot's grid is the rows field, row by row.
    proof fn lemma_abs_grid(w: Writer)
        ensures
            w.abs().grid.len() == w.rows@.len(),
            forall|r: int| 0 <= r < w.rows@.len() ==> w.abs().grid[r] == (#[trigger] w.rows@[r])@,
    {
    }

    /// The color a fresh writer paints with.
    pub closed spec fn initial_color() -> ColorCode {
        ColorCode(11)
    }

    /// A fresh writer: a blank grid, cursor at the top-left corner.
    pub open spec fn initial_state() -> GridState {
        GridState {
            grid: Seq::new(BUFFER_HEIGHT as nat, |r: int| blank_row(Self::initial_color())),
            row: 0,
            col: 0,
            color: Self::initial_color(),
        }
    }

    #[verifier::loop_isolation(false)]
    pub fn new() -> (r: Writer)
        ensures
            r.wf(),
            r.abs() == Self::initial_state(),
    {
        let color = ColorCode::new(Color::LightCyan, Color::Black);
        let mut rows: Vec<Vec<Character>> = Vec::new();
        let mut i: usize = 0;
        while i < BUFFER_HEIGHT
            invariant
                i <= BUFFER_HEIGHT,
                rows@.len() == i,
                forall|r: int| 0 <= r < i ==> (#[trigger] rows@[r])@ == blank_row(color),
            decreases BUFFER_HEIGHT - i,
        {
            let mut row: Vec<Character> = Vec::new();
            let mut j: usize = 0;
            while j < BUFFER_WIDTH
                invariant
                    j <= BUFFER_WIDTH,
                    row@.len() == j,
                    forall|c: int|
                        0 <= c < j ==> row@[c] == (Character {
                            ascii_character: FILL_GLYPH,
                            color_code: color,
                        }),
                decreases BUFFER_WIDTH - j,
            {
                row.push(Character { ascii_character: FILL_GLYPH, color_code: color });
                j = j + 1;
            }
            proof {
                assert(row@ =~= blank_row(color));
            }
            rows.push(row);
            i = i + 1;
        }
        let w = Writer { rows, color_code: color, row_position: 0, column_position: 0 };
        proof {
            assert(w.abs().grid =~~= Self::initial_state().grid);
        }
        w
    }

    /// Places the cursor.
    pub fn set_position(&mut self, row: usize, col: usize)
        requires
            old(self).wf(),
            row < BUFFER_HEIGHT,
            col <= BUFFER_WIDTH,
        ensures
            final(self).wf(),
            final(self).abs() == (GridState {
                grid: old(self).abs().grid,
                row: row as int,
                col: col as int,
                color: old(self).abs().color,
            }),
    {
        self.row_position = row;
        self.column_position = col;
    }

    /// Fills one row with the fill glyph in the current color.
    #[verifier::loop_isolation(false)]
    pub fn clear_row(&mut self, row: usize)
        requires
            old(self).wf(),
            row < BUFFER_HEIGHT,
        ensures
            final(self).wf(),
            final(self).abs() == (GridState {
                grid: old(self).abs().grid.update(row as int, blank_row(old(self).abs().color)),
                row: old(self).abs().row,
                col: old(self).abs().col,
                color: old(self).abs().color,
            }),
    {
        proof {
            Self::lemma_abs_grid(*self);
        }
        let mut col: usize = 0;
        while col < BUFFER_WIDTH
            invariant
                col <= BUFFER_WIDTH,
                self.rows@.len() == BUFFER_HEIGHT,
                self.rows@[row as int]@.len() == BUFFER_WIDTH,
                self.color_code == old(self).color_code,
                self.row_position == old(self).row_position,
                self.column_position == old(self).column_position,
                forall|r: int|
                    0 <= r < BUFFER_HEIGHT && r != row ==> self.rows@[r] == old(self).rows@[r],
                forall|c: int|
                    0 <= c < col ==> self.rows@[row as int]@[c] == (Character {
                        ascii_character: FILL_GLYPH,
                        color_code: old(self).color_code,
                    }),
            decreases BUFFER_WIDTH - col,
        {
            let ch = Character { ascii_character: FILL_GLYPH, color_code: self.color_code };
            self.rows[row][col] = ch;
            col = col + 1;
        }
        proof {
            Self::lemma_abs_grid(*self);
            assert(self.rows@[row as int]@ =~= blank_row(old(self).color_code));
            assert(self.abs().grid =~~= old(self).abs().grid.update(
                row as int,
                blank_row(old(self).abs().color),
            ));
        }
    }

    /// Line feed, scrolling when the cursor leaves the grid.
    #[verifier::loop_isolation(false)]
    fn new_line(&mut self)
        requires
            old(self).wf(),
        ensures
            final(self).wf(),
            final(self).abs() == spec_new_line(old(self).abs()),
    {
        proof {
            Self::lemma_abs_grid(*old(self));
        }
        self.column_position = 0;
        if self.row_position + 1 < BUFFER_HEIGHT {
            self.row_position = self.row_position + 1;
        } else {
            let mut r: usize = 1;
            while r < BUFFER_HEIGHT
                invariant
                    1 <= r <= BUFFER_HEIGHT,
                    self.rows@.len() == BUFFER_HEIGHT,
                    forall|i: int|
                        0 <= i < BUFFER_HEIGHT ==> (#[trigger] self.rows@[i])@.len()
                            == BUFFER_WIDTH,
                    self.color_code == old(self).color_code,
                    self.row_position == old(self).row_position,
                    self.column_position == 0,
                    forall|i: int|
                        0 <= i < r - 1 ==> (#[trigger] self.rows@[i])@ == old(self).rows@[i + 1]@,
                    forall|i: int|
                        r - 1 <= i < BUFFER_HEIGHT ==> (#[trigger] self.rows@[i])@ == old(
                            self,
                        ).rows@[i]@,
                decreases BUFFER_HEIGHT - r,
            {
                let mut c: usize = 0;
                while c < BUFFER_WIDTH
                    invariant
                        1 <= r < BUFFER_HEIGHT,
                        c <= BUFFER_WIDTH,
                        self.rows@.len() == BUFFER_HEIGHT,
                        forall|i: int|
                            0 <= i < BUFFER_HEIGHT ==> (#[trigger] self.rows@[i])@.len()
                                == BUFFER_WIDTH,
                        self.color_code == old(self).color_code,
                        self.row_position == old(self).row_position,
                        self.column_position == 0,
                        forall|i: int|
                            0 <= i < r - 1 ==> (#[trigger] self.rows@[i])@ == old(
                                self,
                            ).rows@[i + 1]@,
                        forall|i: int|
                            r <= i < BUFFER_HEIGHT ==> (#[trigger] self.rows@[i])@ == old(
                                self,
                            ).rows@[i]@,
                        forall|j: int|
                            0 <= j < c ==> #[trigger] self.rows@[r - 1]@[j] == old(
                                self,
                            ).rows@[r as int]@[j],
                        forall|j: int|
                            c <= j < BUFFER_WIDTH ==> #[trigger] self.rows@[r - 1]@[j] == old(
                                self,
                            ).rows@[r - 1]@[j],
                    decreases BUFFER_WIDTH - c,
                {
                    let ch = self.rows[r][c];
                    self.rows[r - 1][c] = ch;
                    c = c + 1;
                }
                proof {
                    assert(self.rows@[r - 1]@ =~= old(self).rows@[r as int]@);
                }
                r = r + 1;
            }
            proof {
                Self::lemma_abs_grid(*self);
                assert(self.wf());
            }
            self.clear_row(BUFFER_HEIGHT - 1);
            proof {
                assert(self.abs().grid =~~= spec_new_line(old(self).abs()).grid);
            }
        }
    }

    /// Writes one byte as `spec_write_byte` says.
    pub fn write_byte(&mut self, byte: u8)
        requires
            old(self).wf(),
        ensures
            final(self).wf(),
            final(self).abs() == spec_write_byte(old(self).abs(), byte),
    {
        if byte == LINE_FEED {
            self.new_line();
        } else {
            if self.column_position >= BUFFER_WIDTH {
                self.new_line();
            }
            proof {
                Self::lemma_abs_grid(*self);
            }
            let r = self.row_position;
            let c = self.column_position;
            let ch = Character { ascii_character: byte, color_code: self.color_code };
            self.rows[r][c] = ch;
            self.column_position = c + 1;
            proof {
                let t = spec_write_byte(old(self).abs(), byte);
                assert(self.abs().grid =~~= t.grid);
            }
        }
    }

    /// Writes every byte of the string, mapping unprintable bytes to the
    /// placeholder glyph.
    #[verifier::loop_isolation(false)]
    pub fn write_string(&mut self, s: &[u8])
        requires
            old(self).wf(),
        ensures
            final(self).wf(),
            final(self).abs() == spec_write_string(old(self).abs(), s@),
    {
        let mut i: usize = 0;
        while i < s.len()
            invariant
                i <= s@.len(),
                self.wf(),
                self.abs() == spec_write_string(old(self).abs(), s@.take(i as int)),
            decreases s@.len() - i,
        {
            let byte = s[i];
            if (0x20 <= byte && byte <= 0x7e) || byte == LINE_FEED {
                self.write_byte(byte);
            } else {
                self.write_byte(UNPRINTABLE_GLYPH);
            }
            proof {
                lemma_write_string_snoc(old(self).abs(), s@, i as int);
            }
            i = i + 1;
        }
        proof {
            assert(s@.take(s@.len() as int) =~= s@);
        }
    }

    /// The character byte stored in the given cell.
    pub fn char_at(&self, row: usize, col: usize) -> (r: u8)
        requires
            self.wf(),
            row < BUFFER_HEIGHT,
            col < BUFFER_WIDTH,
        ensures
            r == self.abs().grid[row as int][col as int].ascii_character,
    {
        proof {
            Self::lemma_abs_grid(*self);
        }
        self.rows[row][col].ascii_character
    }
}

/// Writing one more byte of a string extends the written prefix by that
/// byte's glyph.
pub proof fn lemma_write_string_snoc(s: GridState, bytes: Seq<u8>, i: int)
    requires
        0 <= i < bytes.len(),
    ensures
        spec_write_string(s, bytes.take(i + 1)) == spec_write_byte(
            spec_write_string(s, bytes.take(i)),
            mapped_glyph(bytes[i]),
        ),
    decreases i,
{
    let st1 = spec_write_byte(s, mapped_glyph(bytes[0]));
    let bs1 = bytes.drop_first();
    if i == 0 {
        assert(bytes.take(1)[0] == bytes[0]);
        assert(bytes.take(1).drop_first() =~= bytes.take(0));
        assert(bytes.take(0).len() == 0);
        assert(spec_write_string(s, bytes.take(1)) == spec_write_string(st1, bytes.take(0)));
        assert(spec_write_string(st1, bytes.take(0)) == st1);
        assert(spec_write_string(s, bytes.take(0)) == s);
    } else {
        lemma_write_string_snoc(st1, bs1, i - 1);
        assert(bytes.take(i + 1)[0] == bytes[0]);
        assert(bytes.take(i)[0] == bytes[0]);
        assert(bytes.take(i + 1).drop_first() =~= bs1.take(i));
        assert(bytes.take(i).drop_first() =~= bs1.take(i - 1));
        assert(bs1[i - 1] == bytes[i]);
        assert(spec_write_string(s, bytes.take(i + 1)) == spec_write_string(st1, bs1.take(i)));
        assert(spec_write_string(s, bytes.take(i)) == spec_write_string(st1, bs1.take(i - 1)));
    }
}

/// Law: round trip through the grid. With the cursor on a free cell, a
/// printable byte is stored exactly as given; the line feed acts as a line
/// break and is stored nowhere; every other byte is stored as the fixed
/// placeholder glyph.
pub proof fn lemma_byte_round_trip(s: GridState, byte: u8)
    requires
        wf_state(s),
        s.col < BUFFER_WIDTH,
    ensures
        0x20 <= byte <= 0x7e ==> spec_write_string(s, seq![byte]).grid[s.row][s.col].ascii_character
            == byte,
        byte == LINE_FEED ==> spec_write_string(s, seq![byte]) == spec_new_line(s),
        !(0x20 <= byte <= 0x7e) && byte != LINE_FEED ==> spec_write_string(
            s,
            seq![byte],
        ).grid[s.row][s.col].ascii_character == UNPRINTABLE_GLYPH,
{
    let bs = seq![byte];
    assert(bs[0] == byte);
    assert(bs.drop_first() =~= Seq::<u8>::empty());
    assert(spec_write_string(s, bs) == spec_write_string(
        spec_write_byte(s, mapped_glyph(byte)),
        bs.drop_first(),
    ));
    assert(spec_write_string(spec_write_byte(s, mapped_glyph(byte)), bs.drop_first())
        == spec_write_byte(s, mapped_glyph(byte)));
}

} // verus!
