//! The text-mode console: color attributes packed the way the display
//! hardware reads them, and a writer that fills the bottom row of a
//! fixed-size character grid, scrolling everything up one row on each line
//! break. The writer works on an owned copy of the grid; whoever owns the
//! display memory copies the cells out after writing.

use vstd::prelude::*;
use vstd::string::StringSliceAdditionalSpecFns;

verus! {

/// Rows of the text buffer.
pub const BUFFER_HEIGHT: usize = 25;

/// Columns of the text buffer.
pub const BUFFER_WIDTH: usize = 80;

/// The sixteen text-mode foreground colors, in hardware order.
#[derive(Debug, Clone, Copy, PartialEq, Eq, Structural)]
pub enum ForegroundColor {
    Black,
    Blue,
    Green,
    Cyan,
    Red,
    Magenta,
    Brown,
    LightGray,
    DarkGray,
    LightBlue,
    LightGreen,
    LightCyan,
    LightRed,
    Pink,
    Yellow,
    White,
}

/// The sixteen text-mode background colors, in hardware order.
#[derive(Debug, Clone, Copy, PartialEq, Eq, Structural)]
pub enum BackgroundColor {
    Black,
    Blue,
    Green,
    Cyan,
    Red,
    Magenta,
    Brown,
    LightGray,
    DarkGray,
    LightBlue,
    LightGreen,
    LightCyan,
    LightRed,
    Pink,
    Yellow,
    White,
}

/// The hardware number of a foreground color.
pub open spec fn foreground_value(c: ForegroundColor) -> u8 {
    match c {
        ForegroundColor::Black => 0,
        ForegroundColor::Blue => 1,
        ForegroundColor::Green => 2,
        ForegroundColor::Cyan => 3,
        ForegroundColor::Red => 4,
        ForegroundColor::Magenta => 5,
        ForegroundColor::Brown => 6,
        ForegroundColor::LightGray => 7,
        ForegroundColor::DarkGray => 8,
        ForegroundColor::LightBlue => 9,
        ForegroundColor::LightGreen => 10,
        ForegroundColor::LightCyan => 11,
        ForegroundColor::LightRed => 12,
        ForegroundColor::Pink => 13,
        ForegroundColor::Yellow => 14,
        ForegroundColor::White => 15,
    }
}

/// The hardware number of a background color.
pub open spec fn background_value(c: BackgroundColor) -> u8 {
    match c {
        BackgroundColor::Black => 0,
        BackgroundColor::Blue => 1,
        BackgroundColor::Green => 2,
        BackgroundColor::Cyan => 3,
        BackgroundColor::Red => 4,
        BackgroundColor::Magenta => 5,
        BackgroundColor::Brown => 6,
        BackgroundColor::LightGray => 7,
        BackgroundColor::DarkGray => 8,
        BackgroundColor::LightBlue => 9,
        BackgroundColor::LightGreen => 10,
        BackgroundColor::LightCyan => 11,
        BackgroundColor::LightRed => 12,
        BackgroundColor::Pink => 13,
        BackgroundColor::Yellow => 14,
        BackgroundColor::White => 15,
    }
}

impl ForegroundColor {
    /// The hardware number, as the attribute byte carries it.
    pub fn value(self) -> (v: u8)
        ensures
            v == foreground_value(self),
    {
        match self {
            ForegroundColor::Black => 0,
            ForegroundColor::Blue => 1,
            ForegroundColor::Green => 2,
            ForegroundColor::Cyan => 3,
            ForegroundColor::Red => 4,
            ForegroundColor::Magenta => 5,
            ForegroundColor::Brown => 6,
            ForegroundColor::LightGray => 7,
            ForegroundColor::DarkGray => 8,
            ForegroundColor::LightBlue => 9,
            ForegroundColor::LightGreen => 10,
            ForegroundColor::LightCyan => 11,
            ForegroundColor::LightRed => 12,
            ForegroundColor::Pink => 13,
            ForegroundColor::Yellow => 14,
            ForegroundColor::White => 15,
        }
    }
}

impl BackgroundColor {
    /// The hardware number, as the attribute byte carries it.
    pub fn value(self) -> (v: u8)
        ensures
            v == background_value(self),
    {
        match self {
            BackgroundColor::Black => 0,
            BackgroundColor::Blue => 1,
            BackgroundColor::Green => 2,
            BackgroundColor::Cyan => 3,
            BackgroundColor::Red => 4,
            BackgroundColor::Magenta => 5,
            BackgroundColor::Brown => 6,
            BackgroundColor::LightGray => 7,
            BackgroundColor::DarkGray => 8,
            BackgroundColor::LightBlue => 9,
            BackgroundColor::LightGreen => 10,
            BackgroundColor::LightCyan => 11,
            BackgroundColor::LightRed => 12,
            BackgroundColor::Pink => 13,
            BackgroundColor::Yellow => 14,
            BackgroundColor::White => 15,
        }
    }
}

/// The attribute byte of a character cell: background in the high half,
/// foreground in the low half.
#[derive(Debug, Clone, Copy, PartialEq, Eq, Structural)]
pub struct ColorCode(pub u8);

impl ColorCode {
    /// Packs a foreground and a background color into one attribute byte.
    pub fn new(foreground: ForegroundColor, background: BackgroundColor) -> (c: ColorCode)
        ensures
            c.0 == background_value(background) * 16 + foreground_value(foreground),
    {
        let fg = foreground.value();
        let bg = background.value();
        proof {
            let fgv = foreground_value(foreground);
            let bgv = background_value(background);
            assert(fgv < 16 && bgv < 16);
            assert((bgv << 4) | fgv == bgv * 16 + fgv) by (bit_vector)
                requires
                    fgv < 16,
                    bgv < 16,
            ;
        }
        ColorCode((bg << 4) | fg)
    }
}

/// One character cell: a code-page glyph with its attribute byte.
#[derive(Debug, Clone, Copy, PartialEq, Eq, Structural)]
pub struct ScreenChar {
    pub ascii_character: u8,
    pub color_code: ColorCode,
}

/// The contents of the text buffer: `BUFFER_HEIGHT * BUFFER_WIDTH` cells,
/// row-major, row 0 on top.
pub struct Buffer {
    pub chars: Vec<ScreenChar>,
}

/// A blank cell under the given attribute.
pub open spec fn blank_char(color: ColorCode) -> ScreenChar {
    ScreenChar { ascii_character: 32, color_code: color }
}

/// The grid after one line break: every row copied from the row below it,
/// the bottom row blanked.
pub open spec fn scrolled(chars: Seq<ScreenChar>, color: ColorCode) -> Seq<ScreenChar> {
    Seq::new(
        (BUFFER_HEIGHT * BUFFER_WIDTH) as nat,
        |i: int|
            if i < (BUFFER_HEIGHT - 1) * BUFFER_WIDTH {
                chars[i + BUFFER_WIDTH]
            } else {
                blank_char(color)
            },
    )
}

/// The grid after one row is blanked.
pub open spec fn row_cleared(chars: Seq<ScreenChar>, row: int, color: ColorCode) -> Seq<
    ScreenChar,
> {
    Seq::new(
        chars.len(),
        |i: int|
            if row * BUFFER_WIDTH <= i < (row + 1) * BUFFER_WIDTH {
                blank_char(color)
            } else {
                chars[i]
            },
    )
}

/// What one byte handed to the writer does to the grid and the column:
/// a line break scrolls, anything else lands in the bottom row at the
/// current column, after a scroll if the row is already full.
pub open spec fn byte_step(chars: Seq<ScreenChar>, col: int, color: ColorCode, byte: u8) -> (
    Seq<ScreenChar>,
    int,
) {
    if byte == 10 {
        (scrolled(chars, color), 0)
    } else {
        let (chars_fit, col_fit) = if col >= BUFFER_WIDTH {
            (scrolled(chars, color), 0int)
        } else {
            (chars, col)
        };
        (
            chars_fit.update(
                (BUFFER_HEIGHT - 1) * BUFFER_WIDTH + col_fit,
                ScreenChar { ascii_character: byte, color_code: color },
            ),
            col_fit + 1,
        )
    }
}

/// The byte a cell shows for a byte handed to the writer: printable bytes and
/// the line break pass through, everything else becomes the fallback glyph.
pub open spec fn shown_byte(byte: u8) -> u8 {
    if (0x20 <= byte && byte <= 0x7e) || byte == 10 {
        byte
    } else {
        0xfe
    }
}

/// What a whole string does to the grid and the column: its bytes, filtered
/// through `shown_byte`, applied in order.
pub open spec fn string_steps(
    chars: Seq<ScreenChar>,
    col: int,
    color: ColorCode,
    bytes: Seq<u8>,
) -> (Seq<ScreenChar>, int)
    decreases bytes.len(),
{
    if bytes.len() == 0 {
        (chars, col)
    } else {
        let step = byte_step(chars, col, color, shown_byte(bytes[0]));
        string_steps(step.0, step.1, color, bytes.drop_first())
    }
}

/// Folding one more byte extends the fold: the state after `i + 1` bytes is
/// one `byte_step` past the state after `i` bytes.
pub proof fn lemma_string_steps_snoc(
    chars: Seq<ScreenChar>,
    col: int,
    color: ColorCode,
    bytes: Seq<u8>,
    i: int,
)
    requires
        0 <= i < bytes.len(),
    ensures
        string_steps(chars, col, color, bytes.take(i + 1)) == ({
            let mid = string_steps(chars, col, color, bytes.take(i));
            byte_step(mid.0, mid.1, color, shown_byte(bytes[i]))
        }),
    decreases i,
{
    let step = byte_step(chars, col, color, shown_byte(bytes[0]));
    if i == 0 {
        assert(bytes.take(1)[0] == bytes[0]);
        assert(bytes.take(1).drop_first() =~= Seq::<u8>::empty());
        assert(bytes.take(0) =~= Seq::<u8>::empty());
        assert(string_steps(step.0, step.1, color, Seq::<u8>::empty()) == (step.0, step.1));
        assert(string_steps(chars, col, color, bytes.take(0)) == (chars, col));
        assert(string_steps(chars, col, color, bytes.take(1)) == step);
    } else {
        let rest = bytes.drop_first();
        lemma_string_steps_snoc(step.0, step.1, color, rest, i - 1);
        assert(bytes.take(i + 1)[0] == bytes[0]);
        assert(bytes.take(i)[0] == bytes[0]);
        assert(bytes.take(i + 1).drop_first() =~= rest.take(i));
        assert(bytes.take(i).drop_first() =~= rest.take(i - 1));
        assert(rest[i - 1] == bytes[i]);
        assert(string_steps(chars, col, color, bytes.take(i + 1)) == string_steps(
            step.0,
            step.1,
            color,
            rest.take(i),
        ));
        assert(string_steps(chars, col, color, bytes.take(i)) == string_steps(
            step.0,
            step.1,
            color,
            rest.take(i - 1),
        ));
    }
}

/// Writes text into the bottom row of the character grid, scrolling on line
/// breaks and when the row runs out.
pub struct Writer {
    pub current_col: usize,
    pub color_code: ColorCode,
    pub buffer: Buffer,
}

impl Writer {
    /// The grid has its fixed size and the column cursor never lies past the
    /// row's end.
    pub open spec fn wf(self) -> bool {
        &&& self.buffer.chars@.len() == BUFFER_HEIGHT * BUFFER_WIDTH
        &&& self.current_col <= BUFFER_WIDTH
    }

    /// A writer over a blank grid, at the start of the bottom row.
    pub fn new(color_code: ColorCode) -> (w: Writer)
        ensures
            w.wf(),
            w.current_col == 0,
            w.color_code == color_code,
            forall|i: int|
                0 <= i < BUFFER_HEIGHT * BUFFER_WIDTH ==> w.buffer.chars@[i] == blank_char(
                    color_code,
                ),
    {
        let blank = ScreenChar { ascii_character: 32, color_code };
        let mut chars: Vec<ScreenChar> = Vec::new();
        let mut i: usize = 0;
        while i < BUFFER_HEIGHT * BUFFER_WIDTH
            invariant
                i <= BUFFER_HEIGHT * BUFFER_WIDTH,
                chars@.len() == i,
                blank == blank_char(color_code),
                forall|k: int| 0 <= k < i ==> chars@[k] == blank_char(color_code),
            decreases BUFFER_HEIGHT * BUFFER_WIDTH - i,
        {
            chars.push(blank);
            i += 1;
        }
        Writer { current_col: 0, color_code, buffer: Buffer { chars } }
    }

    /// Blanks one row; everything else stays.
    pub fn clear_row(&mut self, row: usize)
        requires
            old(self).wf(),
            row < BUFFER_HEIGHT,
        ensures
            final(self).wf(),
            final(self).buffer.chars@ == row_cleared(
                old(self).buffer.chars@,
                row as int,
                old(self).color_code,
            ),
            final(self).current_col == old(self).current_col,
            final(self).color_code == old(self).color_code,
    {
        let ghost orig = self.buffer.chars@;
        let blank = ScreenChar { ascii_character: 32, color_code: self.color_code };
        let mut col: usize = 0;
        while col < BUFFER_WIDTH
            invariant
                self.wf(),
                self.current_col == old(self).current_col,
                self.color_code == old(self).color_code,
                row < BUFFER_HEIGHT,
                col <= BUFFER_WIDTH,
                blank == blank_char(self.color_code),
                self.buffer.chars@.len() == orig.len(),
                forall|i: int|
                    row * BUFFER_WIDTH <= i < row * BUFFER_WIDTH + col
                        ==> self.buffer.chars@[i] == blank_char(self.color_code),
                forall|i: int|
                    0 <= i < orig.len() && !(row * BUFFER_WIDTH <= i < row * BUFFER_WIDTH + col)
                        ==> self.buffer.chars@[i] == orig[i],
            decreases BUFFER_WIDTH - col,
        {
            self.buffer.chars.set(row * BUFFER_WIDTH + col, blank);
            col += 1;
        }
        proof {
            assert(self.buffer.chars@ =~= row_cleared(orig, row as int, self.color_code));
        }
    }

    /// Scrolls: every row moves up one, the bottom row is blanked, and the
    /// cursor returns to the row's start.
    pub fn new_line(&mut self)
        requires
            old(self).wf(),
        ensures
            final(self).wf(),
            final(self).buffer.chars@ == scrolled(old(self).buffer.chars@, old(self).color_code),
            final(self).current_col == 0,
            final(self).color_code == old(self).color_code,
    {
        let ghost orig = self.buffer.chars@;
        let mut row: usize = 1;
        while row < BUFFER_HEIGHT
            invariant
                self.wf(),
                self.color_code == old(self).color_code,
                1 <= row <= BUFFER_HEIGHT,
                self.buffer.chars@.len() == orig.len() == BUFFER_HEIGHT * BUFFER_WIDTH,
                forall|i: int|
                    0 <= i < (row - 1) * BUFFER_WIDTH ==> self.buffer.chars@[i] == orig[i
                        + BUFFER_WIDTH],
                forall|i: int|
                    (row - 1) * BUFFER_WIDTH <= i < orig.len() ==> self.buffer.chars@[i]
                        == orig[i],
            decreases BUFFER_HEIGHT - row,
        {
            let mut col: usize = 0;
            while col < BUFFER_WIDTH
                invariant
                    self.wf(),
                    self.color_code == old(self).color_code,
                    1 <= row < BUFFER_HEIGHT,
                    col <= BUFFER_WIDTH,
                    self.buffer.chars@.len() == orig.len() == BUFFER_HEIGHT * BUFFER_WIDTH,
                    forall|i: int|
                        0 <= i < (row - 1) * BUFFER_WIDTH + col ==> self.buffer.chars@[i] == orig[
                            i + BUFFER_WIDTH
                        ],
                    forall|i: int|
                        (row - 1) * BUFFER_WIDTH + col <= i < orig.len()
                            ==> self.buffer.chars@[i] == orig[i],
                decreases BUFFER_WIDTH - col,
            {
                let character = self.buffer.chars[row * BUFFER_WIDTH + col];
                self.buffer.chars.set((row - 1) * BUFFER_WIDTH + col, character);
                col += 1;
            }
            row += 1;
        }
        self.clear_row(BUFFER_HEIGHT - 1);
        self.current_col = 0;
        proof {
            assert(self.buffer.chars@ =~= scrolled(orig, self.color_code));
        }
    }

    /// Hands one byte to the writer: a line break scrolls, anything else
    /// lands in the bottom row at the cursor, scrolling first if the row is
    /// full.
    pub fn write_byte(&mut self, byte: u8)
        requires
            old(self).wf(),
        ensures
            final(self).wf(),
            final(self).color_code == old(self).color_code,
            final(self).buffer.chars@ == byte_step(
                old(self).buffer.chars@,
                old(self).current_col as int,
                old(self).color_code,
                byte,
            ).0,
            final(self).current_col == byte_step(
                old(self).buffer.chars@,
                old(self).current_col as int,
                old(self).color_code,
                byte,
            ).1,
    {
        match byte {
            10 => self.new_line(),
            byte => {
                if self.current_col >= BUFFER_WIDTH {
                    self.new_line();
                }
                let row = BUFFER_HEIGHT - 1;
                let col = self.current_col;
                let color_code = self.color_code;
                self.buffer.chars.set(
                    row * BUFFER_WIDTH + col,
                    ScreenChar { ascii_character: byte, color_code },
                );
                self.current_col = col + 1;
            },
        }
    }

    /// Writes a string: each byte lands in order, printable bytes and line
    /// breaks as themselves, anything else as the fallback glyph.
    pub fn write_string(&mut self, s: &str)
        requires
            old(self).wf(),
        ensures
            final(self).wf(),
            final(self).color_code == old(self).color_code,
            final(self).buffer.chars@ == string_steps(
                old(self).buffer.chars@,
                old(self).current_col as int,
                old(self).color_code,
                s.spec_bytes(),
            ).0,
            final(self).current_col == string_steps(
                old(self).buffer.chars@,
                old(self).current_col as int,
                old(self).color_code,
                s.spec_bytes(),
            ).1,
    {
        let ghost start_chars = old(self).buffer.chars@;
        let ghost start_col = old(self).current_col as int;
        let bytes = s.as_bytes();
        let n = bytes.len();
        let mut i: usize = 0;
        while i < n
            invariant
                self.wf(),
                self.color_code == old(self).color_code,
                i <= n,
                bytes@ == s.spec_bytes(),
                n == bytes@.len(),
                self.buffer.chars@ == string_steps(
                    start_chars,
                    start_col,
                    self.color_code,
                    s.spec_bytes().take(i as int),
                ).0,
                self.current_col == string_steps(
                    start_chars,
                    start_col,
                    self.color_code,
                    s.spec_bytes().take(i as int),
                ).1,
            decreases n - i,
        {
            let byte = bytes[i];
            match byte {
                0x20..=0x7e | 10 => self.write_byte(byte),
                _ => self.write_byte(0xfe),
            }
            proof {
                lemma_string_steps_snoc(
                    start_chars,
                    start_col,
                    self.color_code,
                    s.spec_bytes(),
                    i as int,
                );
            }
            i += 1;
        }
        proof {
            assert(s.spec_bytes().take(n as int) =~= s.spec_bytes());
        }
    }

    /// Changes the attribute later writes use.
    pub fn set_color(&mut self, color: ColorCode)
        ensures
            final(self).color_code == color,
            final(self).current_col == old(self).current_col,
            final(self).buffer.chars@ == old(self).buffer.chars@,
    {
        self.color_code = color;
    }
}

} // verus!
