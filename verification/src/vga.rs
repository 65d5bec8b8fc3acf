//! The VGA text buffer writer and its display configuration.
//!
//! The writer keeps the 80×25 grid of characters, the cursor position and the
//! current color code.  The grid here is the writer's own model of the screen;
//! mirroring it into the memory-mapped hardware buffer, and programming the
//! hardware cursor through the CRT controller ports, is the display driver's
//! edge, outside this library.
use vstd::prelude::*;

use crate::ascii;
use crate::vga::color::Color;
use crate::vga::cursor::Style;

pub mod color;
pub mod cursor;

verus! {

/// The VGA text buffer is typically 80 columns wide.
pub const WIDTH: usize = 80;

/// The VGA text buffer is typically 25 rows high.
pub const HEIGHT: usize = 25;

/// The foreground color at boot.
pub const DEFAULT_FOREGROUND: Color = Color::LightGray;

/// The background color at boot.
pub const DEFAULT_BACKGROUND: Color = Color::Black;

/// The tab width at boot.
pub const DEFAULT_TAB_WIDTH: u8 = 8;

/// The cursor style at boot.
pub const DEFAULT_CURSOR_STYLE: Style = Style::Block;

/// Errors of the display interface.
#[derive(Debug, Clone, Copy, PartialEq, Eq, Structural)]
pub enum GenericError {
    IndexOutOfBounds,
}

/// Color Code: a foreground color in the low nibble and a background color in
/// the high nibble, as the VGA attribute byte lays them out.
#[derive(Debug, Clone, Copy, PartialEq, Eq, Structural)]
pub struct ColorCode {
    code: u8,
}

impl ColorCode {
    /// The foreground color's palette index.
    pub closed spec fn fg(&self) -> u8 {
        (self.code % 16) as u8
    }

    /// The background color's palette index.
    pub closed spec fn bg(&self) -> u8 {
        (self.code / 16) as u8
    }

    /// The attribute byte.
    pub closed spec fn byte(&self) -> u8 {
        self.code
    }

    /// Creates a new color code from the given colors.
    pub fn new(fg: Color, bg: Color) -> (cc: ColorCode)
        ensures
            cc.fg() == fg.index(),
            cc.bg() == bg.index(),
    {
        let f = fg.as_u8();
        let b = bg.as_u8();
        let code = b << 4 | f;
        proof {
            assert(f < 16 && b < 16 ==> (b << 4 | f) % 16 == f && (b << 4 | f) / 16 == b)
                by (bit_vector);
        }
        ColorCode { code }
    }

    /// Extracts the foreground color's index from the color code.
    pub fn get_fg(&self) -> (fg: u8)
        ensures
            fg == self.fg(),
    {
        proof {
            let c = self.code;
            assert(c & 0xF == c % 16) by (bit_vector);
        }
        self.code & 0xF
    }

    /// Extracts the background color's index from the color code.
    pub fn get_bg(&self) -> (bg: u8)
        ensures
            bg == self.bg(),
    {
        proof {
            let c = self.code;
            assert(c >> 4 == c / 16) by (bit_vector);
        }
        self.code >> 4
    }

    /// Replaces the foreground color.
    pub fn set_fg(&mut self, fg: Color)
        ensures
            final(self).fg() == fg.index(),
            final(self).bg() == old(self).bg(),
    {
        let f = fg.as_u8();
        let c = self.code;
        proof {
            assert(f < 16 ==> ((c & 0xF0 | f) % 16 == f && (c & 0xF0 | f) / 16 == c / 16))
                by (bit_vector);
        }
        self.code = c & 0xF0 | f;
    }

    /// Replaces the background color.
    pub fn set_bg(&mut self, bg: Color)
        ensures
            final(self).bg() == bg.index(),
            final(self).fg() == old(self).fg(),
    {
        let b = bg.as_u8();
        let c = self.code;
        proof {
            assert(b < 16 ==> ((c & 0x0F | b << 4) % 16 == c % 16 && (c & 0x0F | b << 4) / 16
                == b)) by (bit_vector);
        }
        self.code = c & 0x0F | b << 4;
    }

    /// The color code as the raw attribute byte.
    pub fn as_u8(&self) -> (byte: u8)
        ensures
            byte == self.byte(),
            byte == self.bg() * 16 + self.fg(),
    {
        self.code
    }
}

/// One cell of the text buffer: a character and its colors.
#[derive(Debug, Clone, Copy, PartialEq, Eq, Structural)]
pub struct ScreenChar {
    pub ascii_char: u8,
    pub color_code: ColorCode,
}

/// A blank cell in the given colors.
pub open spec fn blank_char(cc: ColorCode) -> ScreenChar {
    ScreenChar { ascii_char: ascii::SPACE, color_code: cc }
}

/// A row of blank cells in the given colors.
pub open spec fn blank_row(cc: ColorCode) -> Seq<ScreenChar> {
    Seq::new(WIDTH as nat, |i: int| blank_char(cc))
}

/// The grid after a new line: unchanged unless the cursor sat on the last
/// row, in which case the view scrolls up by one.
pub open spec fn newline_grid(grid: Seq<Seq<ScreenChar>>, row: int, cc: ColorCode) -> Seq<
    Seq<ScreenChar>,
> {
    if row < HEIGHT - 1 {
        grid
    } else {
        grid.subrange(1, HEIGHT as int).push(blank_row(cc))
    }
}

/// The cursor row after a new line.
pub open spec fn newline_row(row: int) -> int {
    if row < HEIGHT - 1 {
        row + 1
    } else {
        row
    }
}

/// The grid and cursor after one printable byte: a line wrap first when the
/// cursor had run off the row, then the cell under the cursor takes the byte
/// and the cursor moves right.
pub open spec fn printed(
    grid: Seq<Seq<ScreenChar>>,
    row: int,
    col: int,
    cc: ColorCode,
    byte: u8,
) -> (Seq<Seq<ScreenChar>>, int, int) {
    let wrapped = if col < WIDTH {
        (grid, row, col)
    } else {
        (newline_grid(grid, row, cc), newline_row(row), 0int)
    };
    let (g0, r0, c0) = wrapped;
    (g0.update(r0, g0[r0].update(c0, ScreenChar { ascii_char: byte, color_code: cc })), r0, c0 + 1)
}

/// The grid and cursor after that many copies of one printable byte.
pub open spec fn printed_n(
    grid: Seq<Seq<ScreenChar>>,
    row: int,
    col: int,
    cc: ColorCode,
    byte: u8,
    n: nat,
) -> (Seq<Seq<ScreenChar>>, int, int)
    decreases n,
{
    if n == 0 {
        (grid, row, col)
    } else {
        let (g0, r0, c0) = printed_n(grid, row, col, cc, byte, (n - 1) as nat);
        printed(g0, r0, c0, cc, byte)
    }
}

/// The grid and cursor after one backspace: the cursor steps back one cell
/// and blanks it; at the start of a row nothing happens.
pub open spec fn backspaced(grid: Seq<Seq<ScreenChar>>, row: int, col: int, cc: ColorCode) -> (
    Seq<Seq<ScreenChar>>,
    int,
    int,
) {
    if col == 0 {
        (grid, row, col)
    } else {
        (grid.update(row, grid[row].update(col - 1, blank_char(cc))), row, col - 1)
    }
}

/// A row with the cells from `begin` rightwards blanked.
pub open spec fn cleared_right(row: Seq<ScreenChar>, begin: int, cc: ColorCode) -> Seq<
    ScreenChar,
> {
    Seq::new(WIDTH as nat, |i: int| if i >= begin {
        blank_char(cc)
    } else {
        row[i]
    })
}

/// A row with the cells left of `end` blanked.
pub open spec fn cleared_left(row: Seq<ScreenChar>, end: int, cc: ColorCode) -> Seq<ScreenChar> {
    Seq::new(WIDTH as nat, |i: int| if i < end {
        blank_char(cc)
    } else {
        row[i]
    })
}

/// The control-sequence parameter that counts: the last one, or zero when
/// none was given.
pub open spec fn last_param(params: Seq<u16>) -> int {
    if params.len() == 0 {
        0
    } else {
        params.last() as int
    }
}

/// The colors a select-graphic-rendition parameter list leaves behind,
/// folded left to right from the boot defaults: zero resets, 30 to 37 and 90
/// to 97 pick the foreground, 40 to 47 and 100 to 107 the background.
pub open spec fn sgr_colors(params: Seq<u16>) -> (Color, Color)
    decreases params.len(),
{
    if params.len() == 0 {
        (DEFAULT_FOREGROUND, DEFAULT_BACKGROUND)
    } else {
        let (fg, bg) = sgr_colors(params.drop_last());
        let p = params.last();
        if p == 0 {
            (DEFAULT_FOREGROUND, DEFAULT_BACKGROUND)
        } else if 30 <= p <= 37 || 90 <= p <= 97 {
            (crate::vga::color::ansi_color(p as u8), bg)
        } else if 40 <= p <= 47 || 100 <= p <= 107 {
            (fg, crate::vga::color::ansi_color((p - 10) as u8))
        } else {
            (fg, bg)
        }
    }
}

/// The display configuration the kernel keeps beside the writer: tab width,
/// whether the hardware cursor is shown, and its style.  The port writes that
/// mirror this state into the CRT controller happen at the display edge.
pub struct VgaConfig {
    tab_width: u8,
    cursor_enabled: bool,
    cursor_style: Style,
}

impl VgaConfig {
    /// The configured tab width.
    pub closed spec fn tab(&self) -> u8 {
        self.tab_width
    }

    /// Whether the cursor is shown.
    pub closed spec fn cursor(&self) -> bool {
        self.cursor_enabled
    }

    /// The configured cursor style.
    pub closed spec fn style(&self) -> Style {
        self.cursor_style
    }

    /// The boot-time configuration.
    pub fn new() -> (config: VgaConfig)
        ensures
            config.tab() == DEFAULT_TAB_WIDTH,
            config.cursor() == true,
            config.style() == DEFAULT_CURSOR_STYLE,
    {
        VgaConfig { tab_width: DEFAULT_TAB_WIDTH, cursor_enabled: true, cursor_style: Style::Block }
    }
}

/// Whether the hardware cursor is shown.
pub fn is_cursor_enabled(config: &VgaConfig) -> (enabled: bool)
    ensures
        enabled == config.cursor(),
{
    config.cursor_enabled
}

/// Shows the hardware cursor.
pub fn enable_cursor(config: &mut VgaConfig)
    ensures
        final(config).cursor() == true,
        final(config).tab() == old(config).tab(),
        final(config).style() == old(config).style(),
{
    config.cursor_enabled = true;
}

/// Hides the hardware cursor.
pub fn disable_cursor(config: &mut VgaConfig)
    ensures
        final(config).cursor() == false,
        final(config).tab() == old(config).tab(),
        final(config).style() == old(config).style(),
{
    config.cursor_enabled = false;
}

/// Returns the current tab width.
pub fn get_tab_width(config: &VgaConfig) -> (width: u8)
    ensures
        width == config.tab(),
{
    config.tab_width
}

/// Sets the tab width; zero is refused and leaves the width unchanged.
pub fn set_tab_width(config: &mut VgaConfig, tab_width: u8)
    ensures
        final(config).tab() == if tab_width > 0 {
            tab_width
        } else {
            old(config).tab()
        },
        final(config).cursor() == old(config).cursor(),
        final(config).style() == old(config).style(),
{
    if tab_width > 0 {
        config.tab_width = tab_width;
    }
}

/// Resets the tab width.
pub fn reset_tab_width(config: &mut VgaConfig)
    ensures
        final(config).tab() == DEFAULT_TAB_WIDTH,
        final(config).cursor() == old(config).cursor(),
        final(config).style() == old(config).style(),
{
    config.tab_width = DEFAULT_TAB_WIDTH;
}

/// Returns the current cursor style.
pub fn get_cursor_style(config: &VgaConfig) -> (style: Style)
    ensures
        style == config.style(),
{
    config.cursor_style
}

/// Sets the cursor style.
pub fn set_cursor_style(config: &mut VgaConfig, cursor_style: Style)
    ensures
        final(config).style() == cursor_style,
        final(config).cursor() == old(config).cursor(),
        final(config).tab() == old(config).tab(),
{
    config.cursor_style = cursor_style;
}

/// Resets the cursor style.
pub fn reset_cursor_style(config: &mut VgaConfig)
    ensures
        final(config).style() == DEFAULT_CURSOR_STYLE,
        final(config).cursor() == old(config).cursor(),
        final(config).tab() == old(config).tab(),
{
    config.cursor_style = DEFAULT_CURSOR_STYLE;
}

/// The byte programmed into the CRT cursor-start register when the cursor is
/// enabled: the register's two reserved top bits kept, the style's first
/// scanline below them.
pub fn cursor_start_byte(previous: u8, style: Style) -> (byte: u8)
    ensures
        byte == (previous & 0xC0) | style.bounds().0,
{
    let (scanline_begin, _) = style.scanline_bounds();
    (previous & 0xC0) | scanline_begin
}

/// The byte programmed into the CRT cursor-end register when the cursor is
/// enabled: the register's three reserved top bits kept, the style's last
/// scanline below them.
pub fn cursor_end_byte(previous: u8, style: Style) -> (byte: u8)
    ensures
        byte == (previous & 0xE0) | style.bounds().1,
{
    let (_, scanline_end) = style.scanline_bounds();
    (previous & 0xE0) | scanline_end
}

/// Writer: the text grid, the cursor position and the current colors.
pub struct Writer {
    col_pos: usize,
    row_pos: usize,
    color_code: ColorCode,
    buffer: Vec<Vec<ScreenChar>>,
}

impl Writer {
    /// The grid of cells, row by row.
    pub closed spec fn grid(&self) -> Seq<Seq<ScreenChar>> {
        self.buffer@.map_values(|row: Vec<ScreenChar>| row@)
    }

    /// The cursor position as (row, column).
    pub closed spec fn cursor_pos(&self) -> (int, int) {
        (self.row_pos as int, self.col_pos as int)
    }

    /// The current color code.
    pub closed spec fn colors(&self) -> ColorCode {
        self.color_code
    }

    /// The shape every writer keeps: a full grid of `HEIGHT` rows of `WIDTH`
    /// cells, the cursor row on the grid and the cursor column at most one
    /// past the last cell.
    pub closed spec fn wf(&self) -> bool {
        &&& self.buffer@.len() == HEIGHT
        &&& forall|r: int|
            0 <= r < HEIGHT ==> #[trigger] self.buffer@[r]@.len() == WIDTH
        &&& self.row_pos < HEIGHT
        &&& self.col_pos <= WIDTH
    }

    /// Creates a writer with a blank grid, default colors and the cursor at
    /// the top left corner.
    #[verifier::loop_isolation(false)]
    pub fn new() -> (writer: Writer)
        ensures
            writer.wf(),
            writer.cursor_pos() == (0int, 0int),
            writer.colors().fg() == DEFAULT_FOREGROUND.index(),
            writer.colors().bg() == DEFAULT_BACKGROUND.index(),
            forall|r: int, c: int|
                0 <= r < HEIGHT && 0 <= c < WIDTH ==> #[trigger] writer.grid()[r][c] == blank_char(
                    writer.colors(),
                ),
    {
        let color_code = ColorCode::new(DEFAULT_FOREGROUND, DEFAULT_BACKGROUND);
        let mut buffer: Vec<Vec<ScreenChar>> = Vec::new();
        let blank = ScreenChar { ascii_char: ascii::SPACE, color_code };
        for r in 0..HEIGHT
            invariant
                buffer@.len() == r,
                forall|i: int| 0 <= i < r ==> #[trigger] buffer@[i]@.len() == WIDTH,
                forall|i: int, j: int|
                    0 <= i < r && 0 <= j < WIDTH ==> #[trigger] buffer@[i]@[j] == blank_char(
                        color_code,
                    ),
        {
            let mut row: Vec<ScreenChar> = Vec::new();
            for c in 0..WIDTH
                invariant
                    row@.len() == c,
                    forall|j: int| 0 <= j < c ==> #[trigger] row@[j] == blank_char(color_code),
            {
                row.push(blank);
            }
            buffer.push(row);
        }
        Writer { col_pos: 0, row_pos: 0, color_code, buffer }
    }

    /// Returns the width of the VGA buffer.
    pub fn width(&self) -> (width: usize)
        ensures
            width == WIDTH,
    {
        WIDTH
    }

    /// Returns the height of the VGA buffer.
    pub fn height(&self) -> (height: usize)
        ensures
            height == HEIGHT,
    {
        HEIGHT
    }

    /// Returns the cursor's position.
    pub fn get_cursor_pos(&self) -> (pos: (usize, usize))
        ensures
            (pos.0 as int, pos.1 as int) == self.cursor_pos(),
    {
        (self.row_pos, self.col_pos)
    }

    /// Sets the cursor to the specified position, clamped onto the grid.
    pub fn set_cursor_pos(&mut self, row: usize, col: usize)
        requires
            old(self).wf(),
        ensures
            final(self).wf(),
            final(self).cursor_pos() == (
                if row < HEIGHT {
                    row as int
                } else {
                    HEIGHT - 1
                },
                if col < WIDTH {
                    col as int
                } else {
                    WIDTH - 1
                },
            ),
            final(self).grid() == old(self).grid(),
            final(self).colors() == old(self).colors(),
    {
        self.row_pos = if row < HEIGHT - 1 {
            row
        } else {
            HEIGHT - 1
        };
        self.col_pos = if col < WIDTH - 1 {
            col
        } else {
            WIDTH - 1
        };
    }

    /// Returns the current foreground color's palette index.
    pub fn get_foreground(&self) -> (fg: u8)
        ensures
            fg == self.colors().fg(),
    {
        self.color_code.get_fg()
    }

    /// Sets the foreground color.
    pub fn set_foreground(&mut self, fg: Color)
        ensures
            final(self).wf() == old(self).wf(),
            final(self).colors().fg() == fg.index(),
            final(self).colors().bg() == old(self).colors().bg(),
            final(self).grid() == old(self).grid(),
            final(self).cursor_pos() == old(self).cursor_pos(),
    {
        self.color_code.set_fg(fg);
    }

    /// Resets the foreground color.
    pub fn reset_foreground(&mut self)
        ensures
            final(self).wf() == old(self).wf(),
            final(self).colors().fg() == DEFAULT_FOREGROUND.index(),
            final(self).colors().bg() == old(self).colors().bg(),
            final(self).grid() == old(self).grid(),
            final(self).cursor_pos() == old(self).cursor_pos(),
    {
        self.set_foreground(DEFAULT_FOREGROUND);
    }

    /// Returns the current background color's palette index.
    pub fn get_background(&self) -> (bg: u8)
        ensures
            bg == self.colors().bg(),
    {
        self.color_code.get_bg()
    }

    /// Sets the background color.
    pub fn set_background(&mut self, bg: Color)
        ensures
            final(self).wf() == old(self).wf(),
            final(self).colors().bg() == bg.index(),
            final(self).colors().fg() == old(self).colors().fg(),
            final(self).grid() == old(self).grid(),
            final(self).cursor_pos() == old(self).cursor_pos(),
    {
        self.color_code.set_bg(bg);
    }

    /// Resets the background color.
    pub fn reset_background(&mut self)
        ensures
            final(self).wf() == old(self).wf(),
            final(self).colors().bg() == DEFAULT_BACKGROUND.index(),
            final(self).colors().fg() == old(self).colors().fg(),
            final(self).grid() == old(self).grid(),
            final(self).cursor_pos() == old(self).cursor_pos(),
    {
        self.set_background(DEFAULT_BACKGROUND);
    }

    /// Retrieves the foreground and background palette indices.
    pub fn get_color_code(&self) -> (colors: (u8, u8))
        ensures
            colors.0 == self.colors().fg(),
            colors.1 == self.colors().bg(),
    {
        (self.color_code.get_fg(), self.color_code.get_bg())
    }

    /// Sets the foreground and background colors.
    pub fn set_color_code(&mut self, fg: Color, bg: Color)
        ensures
            final(self).wf() == old(self).wf(),
            final(self).colors().fg() == fg.index(),
            final(self).colors().bg() == bg.index(),
            final(self).grid() == old(self).grid(),
            final(self).cursor_pos() == old(self).cursor_pos(),
    {
        self.color_code = ColorCode::new(fg, bg);
    }

    /// Resets the foreground and background colors.
    pub fn reset_color_code(&mut self)
        ensures
            final(self).wf() == old(self).wf(),
            final(self).colors().fg() == DEFAULT_FOREGROUND.index(),
            final(self).colors().bg() == DEFAULT_BACKGROUND.index(),
            final(self).grid() == old(self).grid(),
            final(self).cursor_pos() == old(self).cursor_pos(),
    {
        self.color_code = ColorCode::new(DEFAULT_FOREGROUND, DEFAULT_BACKGROUND);
    }

    /// Returns the character and attribute byte at the given position, or an
    /// error exactly when the position lies off the grid.
    pub fn query_data_at(&self, row: usize, col: usize) -> (data: Result<(u8, u8), GenericError>)
        requires
            self.wf(),
        ensures
            match data {
                Result::Ok((ch, attr)) => {
                    &&& row < HEIGHT && col < WIDTH
                    &&& ch == self.grid()[row as int][col as int].ascii_char
                    &&& attr == self.grid()[row as int][col as int].color_code.byte()
                },
                Result::Err(GenericError::IndexOutOfBounds) => row >= HEIGHT || col >= WIDTH,
            },
    {
        if row < HEIGHT && col < WIDTH {
            let cell = self.buffer[row][col];
            Ok((cell.ascii_char, cell.color_code.as_u8()))
        } else {
            Err(GenericError::IndexOutOfBounds)
        }
    }

    /// Clears the given row to blanks in the current colors.
    #[verifier::loop_isolation(false)]
    pub fn clear_row(&mut self, row: usize)
        requires
            old(self).wf(),
            row < HEIGHT,
        ensures
            final(self).wf(),
            final(self).grid() == old(self).grid().update(
                row as int,
                blank_row(old(self).colors()),
            ),
            final(self).cursor_pos() == old(self).cursor_pos(),
            final(self).colors() == old(self).colors(),
    {
        let blank = ScreenChar { ascii_char: ascii::SPACE, color_code: self.color_code };
        let mut fresh: Vec<ScreenChar> = Vec::new();
        for c in 0..WIDTH
            invariant
                fresh@.len() == c,
                forall|j: int|
                    0 <= j < c ==> #[trigger] fresh@[j] == blank_char(self.color_code),
        {
            fresh.push(blank);
        }
        self.buffer[row] = fresh;
        proof {
            assert(fresh@ =~= blank_row(self.color_code));
            assert(final(self).grid() =~= old(self).grid().update(
                row as int,
                blank_row(old(self).colors()),
            ));
        }
    }

    /// Uni-directionally scrolls the view: every row moves up one, and the
    /// bottom row becomes blank.
    #[verifier::loop_isolation(false)]
    pub fn scroll_view(&mut self)
        requires
            old(self).wf(),
        ensures
            final(self).wf(),
            final(self).grid() == old(self).grid().subrange(1, HEIGHT as int).push(
                blank_row(old(self).colors()),
            ),
            final(self).cursor_pos() == old(self).cursor_pos(),
            final(self).colors() == old(self).colors(),
    {
        let mut shifted: Vec<Vec<ScreenChar>> = Vec::new();
        for r in 1..HEIGHT
            invariant
                shifted@.len() == r - 1,
                forall|i: int|
                    0 <= i < r - 1 ==> #[trigger] shifted@[i]@ == self.buffer@[i + 1]@,
        {
            let row = self.copy_row(r);
            shifted.push(row);
        }
        let blank = ScreenChar { ascii_char: ascii::SPACE, color_code: self.color_code };
        let mut fresh: Vec<ScreenChar> = Vec::new();
        for c in 0..WIDTH
            invariant
                fresh@.len() == c,
                forall|j: int|
                    0 <= j < c ==> #[trigger] fresh@[j] == blank_char(self.color_code),
        {
            fresh.push(blank);
        }
        shifted.push(fresh);
        self.buffer = shifted;
        proof {
            assert(fresh@ =~= blank_row(old(self).colors()));
            assert(final(self).grid() =~= old(self).grid().subrange(1, HEIGHT as int).push(
                blank_row(old(self).colors()),
            ));
        }
    }

    /// Copies one row of the grid.
    #[verifier::loop_isolation(false)]
    fn copy_row(&self, row: usize) -> (copy: Vec<ScreenChar>)
        requires
            self.wf(),
            row < HEIGHT,
        ensures
            copy@ == self.grid()[row as int],
    {
        let mut copy: Vec<ScreenChar> = Vec::new();
        let source = &self.buffer[row];
        for c in 0..WIDTH
            invariant
                self.wf(),
                row < HEIGHT,
                source == &self.buffer[row as int],
                copy@.len() == c,
                forall|j: int| 0 <= j < c ==> #[trigger] copy@[j] == source@[j],
        {
            copy.push(source[c]);
        }
        proof {
            assert(copy@ =~= self.grid()[row as int]);
        }
        copy
    }

    /// Outputs a new line: the cursor moves to the start of the next row,
    /// scrolling when it already sits on the last one.
    pub fn newline(&mut self)
        requires
            old(self).wf(),
        ensures
            final(self).wf(),
            final(self).colors() == old(self).colors(),
            final(self).grid() == newline_grid(
                old(self).grid(),
                old(self).cursor_pos().0,
                old(self).colors(),
            ),
            final(self).cursor_pos() == (newline_row(old(self).cursor_pos().0), 0int),
    {
        if self.row_pos < HEIGHT - 1 {
            self.row_pos = self.row_pos + 1;
        } else {
            self.scroll_view();
        }
        self.col_pos = 0;
    }

    /// Outputs a carriage return: the cursor moves to the start of the row.
    pub fn carriage_return(&mut self)
        requires
            old(self).wf(),
        ensures
            final(self).wf(),
            final(self).cursor_pos() == (old(self).cursor_pos().0, 0int),
            final(self).grid() == old(self).grid(),
            final(self).colors() == old(self).colors(),
    {
        self.col_pos = 0;
    }

    /// Writes one printable byte at the cursor: the cell under the cursor
    /// takes the byte in the current colors and the cursor moves right, after
    /// a line wrap if the cursor had run off the row.
    pub fn put_char(&mut self, byte: u8)
        requires
            old(self).wf(),
        ensures
            final(self).wf(),
            final(self).colors() == old(self).colors(),
            final(self).grid() == printed(
                old(self).grid(),
                old(self).cursor_pos().0,
                old(self).cursor_pos().1,
                old(self).colors(),
                byte,
            ).0,
            final(self).cursor_pos().0 == printed(
                old(self).grid(),
                old(self).cursor_pos().0,
                old(self).cursor_pos().1,
                old(self).colors(),
                byte,
            ).1,
            final(self).cursor_pos().1 == printed(
                old(self).grid(),
                old(self).cursor_pos().0,
                old(self).cursor_pos().1,
                old(self).colors(),
                byte,
            ).2,
    {
        if self.col_pos >= WIDTH {
            self.newline();
        }
        let ghost wrapped_grid = self.grid();
        let ghost wrapped_row = self.cursor_pos().0;
        let row = self.row_pos;
        let col = self.col_pos;
        let cell = ScreenChar { ascii_char: byte, color_code: self.color_code };
        let row_vec = &mut self.buffer[row];
        row_vec[col] = cell;
        self.col_pos = col + 1;
        proof {
            assert(final(self).grid() =~= wrapped_grid.update(
                wrapped_row,
                wrapped_grid[wrapped_row].update(col as int, cell),
            ));
        }
    }

    /// Outputs a backspace: the cursor steps back one cell and blanks it; at
    /// the start of a row it does nothing.
    pub fn backspace(&mut self)
        requires
            old(self).wf(),
        ensures
            final(self).wf(),
            final(self).colors() == old(self).colors(),
            old(self).cursor_pos().1 == 0 ==> *final(self) == *old(self),
            final(self).grid() == backspaced(
                old(self).grid(),
                old(self).cursor_pos().0,
                old(self).cursor_pos().1,
                old(self).colors(),
            ).0,
            final(self).cursor_pos().0 == old(self).cursor_pos().0,
            final(self).cursor_pos().1 == backspaced(
                old(self).grid(),
                old(self).cursor_pos().0,
                old(self).cursor_pos().1,
                old(self).colors(),
            ).2,
    {
        if self.col_pos > 0 {
            self.col_pos = self.col_pos - 1;
            self.put_char(ascii::SPACE);
            self.col_pos = self.col_pos - 1;
        }
    }

    /// Outputs a tab: the given number of spaces.
    #[verifier::loop_isolation(false)]
    pub fn htab(&mut self, tab_width: u8)
        requires
            old(self).wf(),
        ensures
            final(self).wf(),
            final(self).colors() == old(self).colors(),
            final(self).grid() == printed_n(
                old(self).grid(),
                old(self).cursor_pos().0,
                old(self).cursor_pos().1,
                old(self).colors(),
                ascii::SPACE,
                tab_width as nat,
            ).0,
            final(self).cursor_pos().0 == printed_n(
                old(self).grid(),
                old(self).cursor_pos().0,
                old(self).cursor_pos().1,
                old(self).colors(),
                ascii::SPACE,
                tab_width as nat,
            ).1,
            final(self).cursor_pos().1 == printed_n(
                old(self).grid(),
                old(self).cursor_pos().0,
                old(self).cursor_pos().1,
                old(self).colors(),
                ascii::SPACE,
                tab_width as nat,
            ).2,
    {
        let mut i: u8 = 0;
        while i < tab_width
            invariant
                self.wf(),
                self.colors() == old(self).colors(),
                i <= tab_width,
                self.grid() == printed_n(
                    old(self).grid(),
                    old(self).cursor_pos().0,
                    old(self).cursor_pos().1,
                    old(self).colors(),
                    ascii::SPACE,
                    i as nat,
                ).0,
                self.cursor_pos().0 == printed_n(
                    old(self).grid(),
                    old(self).cursor_pos().0,
                    old(self).cursor_pos().1,
                    old(self).colors(),
                    ascii::SPACE,
                    i as nat,
                ).1,
                self.cursor_pos().1 == printed_n(
                    old(self).grid(),
                    old(self).cursor_pos().0,
                    old(self).cursor_pos().1,
                    old(self).colors(),
                    ascii::SPACE,
                    i as nat,
                ).2,
            decreases tab_width - i,
        {
            self.put_char(ascii::SPACE);
            i = i + 1;
        }
    }

    /// Outputs a form feed: a new line followed by a space.
    pub fn form_feed(&mut self)
        requires
            old(self).wf(),
        ensures
            final(self).wf(),
            final(self).colors() == old(self).colors(),
            final(self).grid() == printed(
                newline_grid(old(self).grid(), old(self).cursor_pos().0, old(self).colors()),
                newline_row(old(self).cursor_pos().0),
                0,
                old(self).colors(),
                ascii::SPACE,
            ).0,
            final(self).cursor_pos() == (newline_row(old(self).cursor_pos().0), 1int),
    {
        self.newline();
        self.put_char(ascii::SPACE);
    }

    /// Writes the given byte to the buffer, interpreting the control bytes —
    /// newline, backspace, tab, carriage return, form feed — as their control
    /// operations and anything else as a printable character.
    pub fn write_byte(&mut self, byte: u8, tab_width: u8)
        requires
            old(self).wf(),
        ensures
            final(self).wf(),
            final(self).colors() == old(self).colors(),
            byte == ascii::NEWLINE ==> {
                &&& final(self).grid() == newline_grid(
                    old(self).grid(),
                    old(self).cursor_pos().0,
                    old(self).colors(),
                )
                &&& final(self).cursor_pos() == (newline_row(old(self).cursor_pos().0), 0int)
            },
            byte == ascii::BACKSPACE ==> {
                &&& final(self).grid() == backspaced(
                    old(self).grid(),
                    old(self).cursor_pos().0,
                    old(self).cursor_pos().1,
                    old(self).colors(),
                ).0
                &&& final(self).cursor_pos().0 == old(self).cursor_pos().0
                &&& final(self).cursor_pos().1 == backspaced(
                    old(self).grid(),
                    old(self).cursor_pos().0,
                    old(self).cursor_pos().1,
                    old(self).colors(),
                ).2
            },
            byte == ascii::HTAB ==> {
                &&& final(self).grid() == printed_n(
                    old(self).grid(),
                    old(self).cursor_pos().0,
                    old(self).cursor_pos().1,
                    old(self).colors(),
                    ascii::SPACE,
                    tab_width as nat,
                ).0
                &&& final(self).cursor_pos().0 == printed_n(
                    old(self).grid(),
                    old(self).cursor_pos().0,
                    old(self).cursor_pos().1,
                    old(self).colors(),
                    ascii::SPACE,
                    tab_width as nat,
                ).1
                &&& final(self).cursor_pos().1 == printed_n(
                    old(self).grid(),
                    old(self).cursor_pos().0,
                    old(self).cursor_pos().1,
                    old(self).colors(),
                    ascii::SPACE,
                    tab_width as nat,
                ).2
            },
            byte == ascii::CARRIAGE_RETURN ==> {
                &&& final(self).grid() == old(self).grid()
                &&& final(self).cursor_pos() == (old(self).cursor_pos().0, 0int)
            },
            byte == ascii::FORM_FEED ==> {
                &&& final(self).grid() == printed(
                    newline_grid(old(self).grid(), old(self).cursor_pos().0, old(self).colors()),
                    newline_row(old(self).cursor_pos().0),
                    0,
                    old(self).colors(),
                    ascii::SPACE,
                ).0
                &&& final(self).cursor_pos() == (newline_row(old(self).cursor_pos().0), 1int)
            },
            byte != ascii::NEWLINE && byte != ascii::BACKSPACE && byte != ascii::HTAB && byte
                != ascii::CARRIAGE_RETURN && byte != ascii::FORM_FEED ==> {
                &&& final(self).grid() == printed(
                    old(self).grid(),
                    old(self).cursor_pos().0,
                    old(self).cursor_pos().1,
                    old(self).colors(),
                    byte,
                ).0
                &&& final(self).cursor_pos().0 == printed(
                    old(self).grid(),
                    old(self).cursor_pos().0,
                    old(self).cursor_pos().1,
                    old(self).colors(),
                    byte,
                ).1
                &&& final(self).cursor_pos().1 == printed(
                    old(self).grid(),
                    old(self).cursor_pos().0,
                    old(self).cursor_pos().1,
                    old(self).colors(),
                    byte,
                ).2
            },
    {
        match byte {
            ascii::NEWLINE => self.newline(),
            ascii::BACKSPACE => self.backspace(),
            ascii::HTAB => self.htab(tab_width),
            ascii::CARRIAGE_RETURN => self.carriage_return(),
            ascii::FORM_FEED => self.form_feed(),
            _ => self.put_char(byte),
        }
    }

    /// Clears the whole screen and moves the cursor home.
    #[verifier::loop_isolation(false)]
    pub fn clear(&mut self)
        requires
            old(self).wf(),
        ensures
            final(self).wf(),
            final(self).colors() == old(self).colors(),
            final(self).cursor_pos() == (0int, 0int),
            forall|r: int, c: int|
                0 <= r < HEIGHT && 0 <= c < WIDTH ==> #[trigger] final(self).grid()[r][c]
                    == blank_char(old(self).colors()),
    {
        self.col_pos = 0;
        self.row_pos = 0;
        let mut r: usize = 0;
        while r < HEIGHT
            invariant
                self.wf(),
                self.colors() == old(self).colors(),
                self.cursor_pos() == (0int, 0int),
                r <= HEIGHT,
                forall|i: int, j: int|
                    0 <= i < r && 0 <= j < WIDTH ==> #[trigger] self.grid()[i][j] == blank_char(
                        old(self).colors(),
                    ),
            decreases HEIGHT - r,
        {
            let ghost before = self.grid();
            self.clear_row(r);
            proof {
                assert forall|i: int, j: int|
                    0 <= i < r + 1 && 0 <= j < WIDTH implies #[trigger] self.grid()[i][j]
                    == blank_char(old(self).colors()) by {
                    if i == r {
                        assert(self.grid()[i] == blank_row(old(self).colors()));
                        assert(blank_row(old(self).colors())[j] == blank_char(
                            old(self).colors(),
                        ));
                    } else {
                        assert(self.grid()[i] == before[i]);
                    }
                }
            }
            r = r + 1;
        }
        proof {
            assert forall|i: int, j: int|
                0 <= i < HEIGHT && 0 <= j < WIDTH implies #[trigger] self.grid()[i][j]
                == blank_char(old(self).colors()) by {
                assert(0 <= i < r);
            }
        }
    }

    /// Clears the given row from `begin` rightwards to blanks in the current
    /// colors.
    #[verifier::loop_isolation(false)]
    pub fn clear_row_right(&mut self, row: usize, begin: usize)
        requires
            old(self).wf(),
            row < HEIGHT,
        ensures
            final(self).wf(),
            final(self).grid() == old(self).grid().update(
                row as int,
                cleared_right(old(self).grid()[row as int], begin as int, old(self).colors()),
            ),
            final(self).cursor_pos() == old(self).cursor_pos(),
            final(self).colors() == old(self).colors(),
    {
        let blank = ScreenChar { ascii_char: ascii::SPACE, color_code: self.color_code };
        let mut col = begin;
        while col < WIDTH
            invariant
                self.wf(),
                begin <= col || col == begin,
                self.colors() == old(self).colors(),
                self.cursor_pos() == old(self).cursor_pos(),
                begin <= col,
                forall|r: int|
                    0 <= r < HEIGHT && r != row ==> #[trigger] self.grid()[r]
                        == old(self).grid()[r],
                forall|j: int|
                    0 <= j < WIDTH ==> #[trigger] self.grid()[row as int][j] == if begin <= j < col {
                        blank_char(old(self).colors())
                    } else {
                        old(self).grid()[row as int][j]
                    },
            decreases WIDTH - col,
        {
            let ghost before = self.grid();
            let row_vec = &mut self.buffer[row];
            row_vec[col] = blank;
            proof {
                assert forall|r: int|
                    0 <= r < HEIGHT && r != row implies #[trigger] self.grid()[r] == old(
                    self,
                ).grid()[r] by {
                    assert(self.grid()[r] == before[r]);
                }
                assert forall|j: int|
                    0 <= j < WIDTH implies #[trigger] self.grid()[row as int][j] == if begin <= j
                    < col + 1 {
                    blank_char(old(self).colors())
                } else {
                    old(self).grid()[row as int][j]
                } by {
                    if j != col {
                        assert(self.grid()[row as int][j] == before[row as int][j]);
                    }
                }
            }
            col = col + 1;
        }
        proof {
            assert(final(self).grid() =~= old(self).grid().update(
                row as int,
                cleared_right(old(self).grid()[row as int], begin as int, old(self).colors()),
            )) by {
                assert(final(self).grid()[row as int] =~= cleared_right(
                    old(self).grid()[row as int],
                    begin as int,
                    old(self).colors(),
                ));
            }
        }
    }

    /// Clears the given row left of `end` to blanks in the current colors.
    #[verifier::loop_isolation(false)]
    pub fn clear_row_left(&mut self, row: usize, end: usize)
        requires
            old(self).wf(),
            row < HEIGHT,
            end <= WIDTH,
        ensures
            final(self).wf(),
            final(self).grid() == old(self).grid().update(
                row as int,
                cleared_left(old(self).grid()[row as int], end as int, old(self).colors()),
            ),
            final(self).cursor_pos() == old(self).cursor_pos(),
            final(self).colors() == old(self).colors(),
    {
        let blank = ScreenChar { ascii_char: ascii::SPACE, color_code: self.color_code };
        let mut col: usize = 0;
        while col < end
            invariant
                self.wf(),
                col <= end,
                self.colors() == old(self).colors(),
                self.cursor_pos() == old(self).cursor_pos(),
                forall|r: int|
                    0 <= r < HEIGHT && r != row ==> #[trigger] self.grid()[r]
                        == old(self).grid()[r],
                forall|j: int|
                    0 <= j < WIDTH ==> #[trigger] self.grid()[row as int][j] == if j < col {
                        blank_char(old(self).colors())
                    } else {
                        old(self).grid()[row as int][j]
                    },
            decreases end - col,
        {
            let ghost before = self.grid();
            let row_vec = &mut self.buffer[row];
            row_vec[col] = blank;
            proof {
                assert forall|r: int|
                    0 <= r < HEIGHT && r != row implies #[trigger] self.grid()[r] == old(
                    self,
                ).grid()[r] by {
                    assert(self.grid()[r] == before[r]);
                }
                assert forall|j: int|
                    0 <= j < WIDTH implies #[trigger] self.grid()[row as int][j] == if j < col
                    + 1 {
                    blank_char(old(self).colors())
                } else {
                    old(self).grid()[row as int][j]
                } by {
                    if j != col {
                        assert(self.grid()[row as int][j] == before[row as int][j]);
                    }
                }
            }
            col = col + 1;
        }
        proof {
            assert(final(self).grid() =~= old(self).grid().update(
                row as int,
                cleared_left(old(self).grid()[row as int], end as int, old(self).colors()),
            )) by {
                assert(final(self).grid()[row as int] =~= cleared_left(
                    old(self).grid()[row as int],
                    end as int,
                    old(self).colors(),
                ));
            }
        }
    }

    /// Clears the screen without moving the cursor.
    #[verifier::loop_isolation(false)]
    pub fn idle_clear(&mut self)
        requires
            old(self).wf(),
        ensures
            final(self).wf(),
            final(self).colors() == old(self).colors(),
            final(self).cursor_pos() == old(self).cursor_pos(),
            forall|r: int, c: int|
                0 <= r < HEIGHT && 0 <= c < WIDTH ==> #[trigger] final(self).grid()[r][c]
                    == blank_char(old(self).colors()),
    {
        let mut r: usize = 0;
        while r < HEIGHT
            invariant
                self.wf(),
                self.colors() == old(self).colors(),
                self.cursor_pos() == old(self).cursor_pos(),
                r <= HEIGHT,
                forall|i: int, j: int|
                    0 <= i < r && 0 <= j < WIDTH ==> #[trigger] self.grid()[i][j] == blank_char(
                        old(self).colors(),
                    ),
            decreases HEIGHT - r,
        {
            let ghost before = self.grid();
            self.clear_row(r);
            proof {
                assert forall|i: int, j: int|
                    0 <= i < r + 1 && 0 <= j < WIDTH implies #[trigger] self.grid()[i][j]
                    == blank_char(old(self).colors()) by {
                    if i == r {
                        assert(self.grid()[i] == blank_row(old(self).colors()));
                        assert(blank_row(old(self).colors())[j] == blank_char(
                            old(self).colors(),
                        ));
                    } else {
                        assert(self.grid()[i] == before[i]);
                    }
                }
            }
            r = r + 1;
        }
    }

    /// Executes one control sequence, as the ANSI parser hands it over: the
    /// final action character and the parameter list (each parameter's first
    /// subparameter, in order; the last one counts where one number is
    /// expected, zero standing in when none was given).  Colors follow the
    /// select-graphic-rendition fold; the cursor moves stay on the grid; the
    /// erase actions blank part of the display.  Anything else is ignored.
    #[verifier::loop_isolation(false)]
    pub fn csi_dispatch(&mut self, params: &[u16], action: char)
        requires
            old(self).wf(),
        ensures
            final(self).wf(),
            action == 'm' ==> {
                &&& final(self).grid() == old(self).grid()
                &&& final(self).cursor_pos() == old(self).cursor_pos()
                &&& final(self).colors().fg() == sgr_colors(params@).0.index()
                &&& final(self).colors().bg() == sgr_colors(params@).1.index()
            },
            action != 'm' ==> final(self).colors() == old(self).colors(),
            action == 'A' ==> {
                &&& final(self).grid() == old(self).grid()
                &&& final(self).cursor_pos().1 == old(self).cursor_pos().1
                &&& final(self).cursor_pos().0 == if last_param(params@) <= old(
                    self,
                ).cursor_pos().0 {
                    old(self).cursor_pos().0 - last_param(params@)
                } else {
                    0int
                }
            },
            action == 'B' ==> {
                &&& final(self).grid() == old(self).grid()
                &&& final(self).cursor_pos().1 == old(self).cursor_pos().1
                &&& final(self).cursor_pos().0 == if old(self).cursor_pos().0 + last_param(params@)
                    < HEIGHT {
                    old(self).cursor_pos().0 + last_param(params@)
                } else {
                    HEIGHT - 1
                }
            },
            action == 'C' ==> {
                &&& final(self).grid() == old(self).grid()
                &&& final(self).cursor_pos().0 == old(self).cursor_pos().0
                &&& final(self).cursor_pos().1 == if old(self).cursor_pos().1 + last_param(params@)
                    < WIDTH {
                    old(self).cursor_pos().1 + last_param(params@)
                } else {
                    WIDTH - 1
                }
            },
            action == 'D' ==> {
                &&& final(self).grid() == old(self).grid()
                &&& final(self).cursor_pos().0 == old(self).cursor_pos().0
                &&& final(self).cursor_pos().1 == if last_param(params@) <= old(
                    self,
                ).cursor_pos().1 {
                    old(self).cursor_pos().1 - last_param(params@)
                } else {
                    0int
                }
            },
            action == 'G' ==> {
                &&& final(self).grid() == old(self).grid()
                &&& final(self).cursor_pos().0 == old(self).cursor_pos().0
                &&& final(self).cursor_pos().1 == if last_param(params@) < WIDTH {
                    last_param(params@)
                } else {
                    WIDTH as int
                }
            },
            action == 'H' ==> {
                &&& final(self).grid() == old(self).grid()
                &&& final(self).cursor_pos().0 == if params@.len() > 0 && params@[0] < HEIGHT {
                    params@[0] as int
                } else if params@.len() == 0 {
                    0int
                } else {
                    HEIGHT - 1
                }
                &&& final(self).cursor_pos().1 == if params@.len() > 1 && params@[1] < WIDTH {
                    params@[1] as int
                } else if params@.len() <= 1 {
                    0int
                } else {
                    WIDTH - 1
                }
            },
            action == 'J' ==> {
                &&& final(self).cursor_pos() == old(self).cursor_pos()
                &&& last_param(params@) == 0 ==> forall|r: int, c: int|
                    0 <= r < HEIGHT && 0 <= c < WIDTH ==> #[trigger] final(self).grid()[r][c] == if r
                        > old(self).cursor_pos().0 || (r == old(self).cursor_pos().0 && c >= old(
                        self,
                    ).cursor_pos().1) {
                        blank_char(old(self).colors())
                    } else {
                        old(self).grid()[r][c]
                    }
                &&& last_param(params@) == 1 ==> forall|r: int, c: int|
                    0 <= r < HEIGHT && 0 <= c < WIDTH ==> #[trigger] final(self).grid()[r][c] == if r
                        < old(self).cursor_pos().0 || (r == old(self).cursor_pos().0 && c < old(
                        self,
                    ).cursor_pos().1) {
                        blank_char(old(self).colors())
                    } else {
                        old(self).grid()[r][c]
                    }
                &&& last_param(params@) == 2 ==> forall|r: int, c: int|
                    0 <= r < HEIGHT && 0 <= c < WIDTH ==> #[trigger] final(self).grid()[r][c]
                        == blank_char(old(self).colors())
                &&& last_param(params@) > 2 ==> final(self).grid() == old(self).grid()
            },
            action == 'K' ==> {
                &&& final(self).cursor_pos() == old(self).cursor_pos()
                &&& last_param(params@) == 0 ==> final(self).grid() == old(self).grid().update(
                    old(self).cursor_pos().0,
                    cleared_right(
                        old(self).grid()[old(self).cursor_pos().0],
                        old(self).cursor_pos().1,
                        old(self).colors(),
                    ),
                )
                &&& last_param(params@) == 1 ==> final(self).grid() == old(self).grid().update(
                    old(self).cursor_pos().0,
                    cleared_left(
                        old(self).grid()[old(self).cursor_pos().0],
                        old(self).cursor_pos().1,
                        old(self).colors(),
                    ),
                )
                &&& last_param(params@) == 2 ==> final(self).grid() == old(self).grid().update(
                    old(self).cursor_pos().0,
                    blank_row(old(self).colors()),
                )
                &&& last_param(params@) > 2 ==> final(self).grid() == old(self).grid()
            },
            action != 'm' && action != 'A' && action != 'B' && action != 'C' && action != 'D'
                && action != 'G' && action != 'H' && action != 'J' && action != 'K' ==> *final(self)
                == *old(self),
    {
        match action {
            'm' => {
                let mut fg = DEFAULT_FOREGROUND;
                let mut bg = DEFAULT_BACKGROUND;
                let mut i: usize = 0;
                while i < params.len()
                    invariant
                        i <= params@.len(),
                        (fg, bg) == sgr_colors(params@.take(i as int)),
                    decreases params@.len() - i,
                {
                    let param = params[i];
                    if param == 0 {
                        fg = DEFAULT_FOREGROUND;
                        bg = DEFAULT_BACKGROUND;
                    } else if (30 <= param && param <= 37) || (90 <= param && param <= 97) {
                        if let Ok(color) = Color::from_ansi(param as u8) {
                            fg = color;
                        }
                    } else if (40 <= param && param <= 47) || (100 <= param && param <= 107) {
                        if let Ok(color) = Color::from_ansi((param - 10) as u8) {
                            bg = color;
                        }
                    }
                    proof {
                        assert(params@.take(i + 1).drop_last() =~= params@.take(i as int));
                        assert(params@.take(i + 1).last() == params@[i as int]);
                    }
                    i = i + 1;
                }
                proof {
                    assert(params@.take(params@.len() as int) =~= params@);
                }
                self.set_color_code(fg, bg);
            },
            'A' => {
                let n = last_param_value(params);
                let up = if n < self.row_pos {
                    n
                } else {
                    self.row_pos
                };
                self.row_pos = self.row_pos - up;
            },
            'B' => {
                let n = last_param_value(params);
                self.row_pos = if self.row_pos + n < HEIGHT {
                    self.row_pos + n
                } else {
                    HEIGHT - 1
                };
            },
            'C' => {
                let n = last_param_value(params);
                self.col_pos = if self.col_pos + n < WIDTH {
                    self.col_pos + n
                } else {
                    WIDTH - 1
                };
            },
            'D' => {
                let n = last_param_value(params);
                let left = if n < self.col_pos {
                    n
                } else {
                    self.col_pos
                };
                self.col_pos = self.col_pos - left;
            },
            'G' => {
                let n = last_param_value(params);
                self.col_pos = if n < WIDTH {
                    n
                } else {
                    WIDTH
                };
            },
            'H' => {
                let r = if params.len() > 0 {
                    params[0] as usize
                } else {
                    0
                };
                let c = if params.len() > 1 {
                    params[1] as usize
                } else {
                    0
                };
                self.row_pos = if r < HEIGHT {
                    r
                } else {
                    HEIGHT - 1
                };
                self.col_pos = if c < WIDTH {
                    c
                } else {
                    WIDTH - 1
                };
            },
            'J' => {
                let n = last_param_value(params);
                match n {
                    0 => {
                        let row = self.row_pos;
                        let col = self.col_pos;
                        self.clear_row_right(row, col);
                        let mut r = row + 1;
                        while r < HEIGHT
                            invariant
                                self.wf(),
                                row < r <= HEIGHT,
                                row == old(self).cursor_pos().0,
                                col == old(self).cursor_pos().1,
                                self.colors() == old(self).colors(),
                                self.cursor_pos() == old(self).cursor_pos(),
                                forall|i: int, j: int|
                                    0 <= i < HEIGHT && 0 <= j < WIDTH
                                        ==> #[trigger] self.grid()[i][j] == if (i == row && j >= col)
                                        || (row < i < r) {
                                        blank_char(old(self).colors())
                                    } else {
                                        old(self).grid()[i][j]
                                    },
                            decreases HEIGHT - r,
                        {
                            let ghost before = self.grid();
                            self.clear_row(r);
                            proof {
                                assert forall|i: int, j: int|
                                    0 <= i < HEIGHT && 0 <= j < WIDTH
                                        implies #[trigger] self.grid()[i][j] == if (i == row && j
                                        >= col) || (row < i < r + 1) {
                                        blank_char(old(self).colors())
                                    } else {
                                        old(self).grid()[i][j]
                                    } by {
                                    if i == r {
                                        assert(self.grid()[i] == blank_row(old(self).colors()));
                                    } else {
                                        assert(self.grid()[i] == before[i]);
                                    }
                                }
                            }
                            r = r + 1;
                        }
                    },
                    1 => {
                        let row = self.row_pos;
                        let col = self.col_pos;
                        self.clear_row_left(row, col);
                        let mut r: usize = 0;
                        while r < row
                            invariant
                                self.wf(),
                                r <= row,
                                row == old(self).cursor_pos().0,
                                col == old(self).cursor_pos().1,
                                row < HEIGHT,
                                self.colors() == old(self).colors(),
                                self.cursor_pos() == old(self).cursor_pos(),
                                forall|i: int, j: int|
                                    0 <= i < HEIGHT && 0 <= j < WIDTH
                                        ==> #[trigger] self.grid()[i][j] == if (i == row && j < col)
                                        || (i < r) {
                                        blank_char(old(self).colors())
                                    } else {
                                        old(self).grid()[i][j]
                                    },
                            decreases row - r,
                        {
                            let ghost before = self.grid();
                            self.clear_row(r);
                            proof {
                                assert forall|i: int, j: int|
                                    0 <= i < HEIGHT && 0 <= j < WIDTH
                                        implies #[trigger] self.grid()[i][j] == if (i == row && j
                                        < col) || (i < r + 1) {
                                        blank_char(old(self).colors())
                                    } else {
                                        old(self).grid()[i][j]
                                    } by {
                                    if i == r {
                                        assert(self.grid()[i] == blank_row(old(self).colors()));
                                    } else {
                                        assert(self.grid()[i] == before[i]);
                                    }
                                }
                            }
                            r = r + 1;
                        }
                    },
                    2 => {
                        self.idle_clear();
                    },
                    _ => {},
                }
            },
            'K' => {
                let row = self.row_pos;
                let col = self.col_pos;
                let n = last_param_value(params);
                match n {
                    0 => {
                        self.clear_row_right(row, col);
                    },
                    1 => {
                        self.clear_row_left(row, col);
                    },
                    2 => {
                        self.clear_row(row);
                        proof {
                            assert(final(self).grid() == old(self).grid().update(
                                row as int,
                                blank_row(old(self).colors()),
                            ));
                        }
                    },
                    _ => {},
                }
            },
            _ => {},
        }
    }
}

/// The control-sequence parameter that counts: the last one, or zero when none
/// was given.
pub fn last_param_value(params: &[u16]) -> (n: usize)
    ensures
        n == last_param(params@),
{
    if params.len() == 0 {
        0
    } else {
        params[params.len() - 1] as usize
    }
}

} // verus!
