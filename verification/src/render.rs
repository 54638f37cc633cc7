//! The text layout and colours used when pipeline output is rendered as a
//! terminal image.

use vstd::prelude::*;
use crate::text::{
    crlf, lemma_lines_bounded, lemma_lines_crlf, lemma_lines_trailing_newline, lines, char_rows, chars_of, split_lines,
    push_chars, push_spaces, string_from_chars,
};

verus! {

/// The most rows a rendered terminal has.
pub const MAX_ROWS: u16 = 64;

/// The margin, in pixels, around the drawn text.
pub const MARGIN: i32 = 10;

/// The text of `s` without its ANSI escape sequences, as
/// `console::strip_ansi_codes` gives it.
pub uninterp spec fn ansi_stripped(s: Seq<char>) -> Seq<char>;

/// Calls `console::strip_ansi_codes`; the contract names the result, and
/// states that it is no longer than the input, since the source keeps only
/// the non-escape pieces of it.
#[verifier::external_body]
fn strip_ansi_codes(s: &str) -> (res: String)
    ensures
        res@ == ansi_stripped(s@),
        res@.len() <= s@.len(),
{
    console::strip_ansi_codes(s).into_owned()
}

/// The greatest length among `rows` (0 when there are none).
pub open spec fn max_row_len(rows: Seq<Seq<char>>) -> nat
    decreases rows.len(),
{
    if rows.len() == 0 {
        0
    } else {
        let rest = max_row_len(rows.drop_last());
        if rows.last().len() > rest {
            rows.last().len()
        } else {
            rest
        }
    }
}

/// The number of rows of the terminal that shows `input`: its line count,
/// cut to 16 bits, and at most `MAX_ROWS`.
pub open spec fn terminal_rows(input: Seq<char>) -> u16 {
    let n = (lines(input).len() as u16);
    if n < 64 {
        n
    } else {
        64
    }
}

/// The number of columns of the terminal that shows `input`: the longest
/// line of its text without escape sequences, cut to 16 bits.
pub open spec fn terminal_cols(input: Seq<char>) -> u16 {
    (max_row_len(lines(ansi_stripped(input))) as u16)
}

/// `line` padded with spaces to `width` characters.
pub open spec fn pad_to(line: Seq<char>, width: int) -> Seq<char> {
    if line.len() >= width {
        line
    } else {
        line + Seq::new((width - line.len()) as nat, |_i: int| ' ')
    }
}

/// The lines of `rows`, each padded so that its text without escape
/// sequences fills `cols` columns, joined without separators.
pub open spec fn padded_rows(rows: Seq<Seq<char>>, cols: u16) -> Seq<char>
    decreases rows.len(),
{
    if rows.len() == 0 {
        seq![]
    } else {
        let l = rows.last();
        padded_rows(rows.drop_last(), cols) + pad_to(l, cols + l.len() - ansi_stripped(l).len())
    }
}

/// The length of the longest row.
fn longest_row(rows: &Vec<Vec<char>>) -> (res: usize)
    ensures
        res == max_row_len(char_rows(rows@)),
{
    let mut best: usize = 0;
    let mut i: usize = 0;
    while i < rows.len()
        invariant
            i <= rows@.len(),
            best == max_row_len(char_rows(rows@.take(i as int))),
        decreases rows.len() - i,
    {
        assert(char_rows(rows@.take(i as int + 1)).drop_last() =~= char_rows(rows@.take(i as int)));
        if rows[i].len() > best {
            best = rows[i].len();
        }
        i += 1;
    }
    assert(rows@.take(rows@.len() as int) =~= rows@);
    best
}

/// The rows and columns of the terminal that shows `input`.
pub fn terminal_size(input: &str) -> (res: (u16, u16))
    ensures
        res.0 == terminal_rows(input@),
        res.0 <= MAX_ROWS,
        res.1 == terminal_cols(input@),
{
    let chars = chars_of(input);
    let rows = split_lines(&chars);
    let n = rows.len() as u16;
    let r = if n < MAX_ROWS { n } else { MAX_ROWS };
    let stripped = strip_ansi_codes(input);
    let c = visible_columns(stripped.as_str());
    assert(char_rows(rows@).len() == rows@.len());
    (r, c)
}

/// The columns needed for text without escape sequences: its longest
/// line, cut to 16 bits.
pub fn visible_columns(stripped: &str) -> (res: u16)
    ensures
        res == (max_row_len(lines(stripped@)) as u16),
{
    let stripped_chars = chars_of(stripped);
    let stripped_rows = split_lines(&stripped_chars);
    longest_row(&stripped_rows) as u16
}

/// Appends `line` padded so that its `visible` characters (those outside
/// escape sequences) fill `cols` columns.
pub fn push_padded_line(out: &mut String, line: &Vec<char>, visible: usize, cols: u16)
    requires
        visible <= line@.len(),
        line@.len() + 65536 <= usize::MAX,
    ensures
        final(out)@ == old(out)@ + pad_to(line@, cols + line@.len() - visible),
{
    let len = line.len();
    let width: usize = cols as usize + (len - visible);
    push_chars(out, line);
    if len < width {
        push_spaces(out, width - len);
    }
}

/// The number of characters in `line` once its escape sequences are gone.
fn stripped_len(line: &Vec<char>) -> (res: usize)
    ensures
        res == ansi_stripped(line@).len(),
        res <= line@.len(),
{
    let s = string_from_chars(line);
    let t = strip_ansi_codes(s.as_str());
    chars_of(t.as_str()).len()
}

/// The text written to the terminal: every line of `input` padded so that
/// its visible text fills `cols` columns, the lines joined without
/// separators.
pub fn pad_lines(input: &str, cols: u16) -> (res: String)
    requires
        input@.len() + 65536 <= usize::MAX,
    ensures
        res@ == padded_rows(lines(input@), cols),
{
    let chars = chars_of(input);
    let rows = split_lines(&chars);
    proof {
        lemma_lines_bounded(input@);
        assert forall|j: int| 0 <= j < rows@.len() implies (#[trigger] rows@[j])@.len() <= input@.len() by {
            assert(char_rows(rows@)[j] == rows@[j]@);
        }
    }
    let mut out = String::new();
    let mut i: usize = 0;
    while i < rows.len()
        invariant
            i <= rows@.len(),
            char_rows(rows@) == lines(input@),
            input@.len() + 65536 <= usize::MAX,
            forall|j: int| 0 <= j < rows@.len() ==> (#[trigger] rows@[j])@.len() <= input@.len(),
            out@ == padded_rows(char_rows(rows@.take(i as int)), cols),
        decreases rows.len() - i,
    {
        let line = &rows[i];
        assert(char_rows(rows@)[i as int] == line@);
        let visible = stripped_len(line);
        push_padded_line(&mut out, line, visible, cols);
        assert(char_rows(rows@.take(i as int + 1)).drop_last() =~= char_rows(rows@.take(i as int)));
        assert(char_rows(rows@.take(i as int + 1)).last() == line@);
        i += 1;
    }
    assert(rows@.take(rows@.len() as int) =~= rows@);
    out
}

/// An opaque colour from red, green and blue (`cosmic_text::Color::rgb`):
/// alpha in the top byte, then red, green and blue.
pub open spec fn rgb_value(r: u8, g: u8, b: u8) -> u32 {
    (0xff000000u32 | ((r as u32) << 16u32) | ((g as u32) << 8u32) | (b as u32)) as u32
}

/// An opaque colour from red, green and blue.
pub fn rgb(r: u8, g: u8, b: u8) -> (res: u32)
    ensures
        res == rgb_value(r, g, b),
{
    0xff000000u32 | ((r as u32) << 16u32) | ((g as u32) << 8u32) | (b as u32)
}

/// The red, green and blue of an opaque colour come back out of it, and
/// its alpha is full.
pub proof fn lemma_rgb_components(r: u8, g: u8, b: u8)
    ensures
        (rgb_value(r, g, b) >> 24u32) == 0xffu32,
        ((rgb_value(r, g, b) >> 16u32) & 0xffu32) == r as u32,
        ((rgb_value(r, g, b) >> 8u32) & 0xffu32) == g as u32,
        (rgb_value(r, g, b) & 0xffu32) == b as u32,
{
    let rr = r as u32;
    let gg = g as u32;
    let bb = b as u32;
    assert(rr < 256 && gg < 256 && bb < 256);
    assert(((0xff000000u32 | (rr << 16u32) | (gg << 8u32) | bb) >> 24u32) == 0xffu32
        && (((0xff000000u32 | (rr << 16u32) | (gg << 8u32) | bb) >> 16u32) & 0xffu32) == rr
        && (((0xff000000u32 | (rr << 16u32) | (gg << 8u32) | bb) >> 8u32) & 0xffu32) == gg
        && ((0xff000000u32 | (rr << 16u32) | (gg << 8u32) | bb) & 0xffu32) == bb) by (bit_vector)
        requires
            rr < 256 && gg < 256 && bb < 256;
}

/// The colours of the terminal theme.
#[derive(Clone, Copy, Debug)]
pub struct Palette {
    /// Black, red, green, yellow, blue, magenta, cyan, white.
    pub normal: [u32; 8],
    /// The bright variants, in the same order.
    pub bright: [u32; 8],
    pub foreground: u32,
    pub background: u32,
}

/// The foreground colour of a terminal cell.
#[derive(Clone, Copy, Debug, PartialEq, Eq, Structural)]
pub enum CellColor {
    Default,
    Idx(u8),
    Rgb(u8, u8, u8),
}

/// The colour a cell is drawn in: indices 0 to 7 pick a normal theme
/// colour, 8 to 15 a bright one, true colours are drawn opaque, and the
/// default or any other index is the theme's foreground.
pub open spec fn cell_color_value(c: CellColor, p: Palette) -> u32 {
    match c {
        CellColor::Idx(i) => if i < 8 {
            p.normal@[i as int]
        } else if i < 16 {
            p.bright@[i - 8]
        } else {
            p.foreground
        },
        CellColor::Rgb(r, g, b) => rgb_value(r, g, b),
        CellColor::Default => p.foreground,
    }
}

/// The colour a cell is drawn in.
pub fn cell_color(c: CellColor, p: &Palette) -> (res: u32)
    ensures
        res == cell_color_value(c, *p),
{
    match c {
        CellColor::Idx(i) => if i < 8 {
            p.normal[i as usize]
        } else if i < 16 {
            p.bright[(i - 8) as usize]
        } else {
            p.foreground
        },
        CellColor::Rgb(r, g, b) => rgb(r, g, b),
        CellColor::Default => p.foreground,
    }
}

/// The bytes of `v`, most significant first.
pub open spec fn be_bytes(v: u32) -> Seq<u8> {
    seq![(v >> 24u32) as u8, ((v >> 16u32) & 0xffu32) as u8, ((v >> 8u32) & 0xffu32) as u8, (v & 0xffu32) as u8]
}

/// The RGBA bytes of the image background: the theme's 24-bit background
/// colour, fully opaque.
pub fn background_pixel(background: u32) -> (res: [u8; 4])
    ensures
        res@ == be_bytes((background << 8u32) | 0xffu32),
{
    let v: u32 = (background << 8u32) | 0xffu32;
    [(v >> 24u32) as u8, ((v >> 16u32) & 0xffu32) as u8, ((v >> 8u32) & 0xffu32) as u8, (v & 0xffu32) as u8]
}

/// The background pixel of a colour holds its low three bytes (red, green
/// and blue) and full alpha; a top byte is dropped.
pub proof fn lemma_background_pixel(background: u32)
    ensures
        be_bytes((background << 8u32) | 0xffu32) == seq![
            ((background >> 16u32) & 0xffu32) as u8,
            ((background >> 8u32) & 0xffu32) as u8,
            (background & 0xffu32) as u8,
            0xffu8,
        ],
{
    let v = (background << 8u32) | 0xffu32;
    assert((v >> 24u32) == ((background >> 16u32) & 0xffu32)
        && ((v >> 16u32) & 0xffu32) == ((background >> 8u32) & 0xffu32)
        && ((v >> 8u32) & 0xffu32) == (background & 0xffu32)
        && (v & 0xffu32) == 0xffu32) by (bit_vector)
        requires
            v == (background << 8u32) | 0xffu32;
}

/// The display width that `unicode-width` gives a character: `None` for a
/// control character, else the number of columns it takes.
pub uninterp spec fn unicode_char_width(c: char) -> Option<usize>;

/// Calls `unicode_width::UnicodeWidthChar::width`, the width the terminal
/// emulator gives each character it draws; the contract names the result,
/// which depends on the character alone.
#[verifier::external_body]
fn char_width(c: char) -> (res: Option<usize>)
    ensures
        res == unicode_char_width(c),
{
    unicode_width::UnicodeWidthChar::width(c)
}

/// Whether a character of `text` is two columns wide.
pub open spec fn has_wide_char_spec(text: Seq<char>) -> bool {
    exists|i: int| 0 <= i < text.len() && unicode_char_width(#[trigger] text[i]) == Some(2usize)
}

/// Whether `text` holds a character two columns wide.
pub fn has_wide_char(text: &str) -> (res: bool)
    ensures
        res == has_wide_char_spec(text@),
{
    let cs = chars_of(text);
    let mut i: usize = 0;
    while i < cs.len()
        invariant
            cs@ == text@,
            i <= cs@.len(),
            forall|j: int| 0 <= j < i ==> unicode_char_width(#[trigger] text@[j]) != Some(2usize),
        decreases cs.len() - i,
    {
        if let Some(w) = char_width(cs[i]) {
            if w == 2 {
                assert(unicode_char_width(text@[i as int]) == Some(2usize));
                return true;
            }
        }
        i += 1;
    }
    false
}

/// The index just past the digits and `;` of `text` from `k` on: the end of
/// the parameters of an SGR escape sequence that start at `k`.
pub open spec fn sgr_params_end(text: Seq<char>, k: int) -> int
    decreases text.len() - k,
{
    if 0 <= k < text.len() && (('0' <= text[k] && text[k] <= '9') || text[k] == ';') {
        sgr_params_end(text, k + 1)
    } else {
        k
    }
}

/// The parameters of an SGR sequence end no earlier than they start.
pub proof fn lemma_sgr_params_end(text: Seq<char>, k: int)
    ensures
        sgr_params_end(text, k) >= k,
    decreases text.len() - k,
{
    if 0 <= k < text.len() && (('0' <= text[k] && text[k] <= '9') || text[k] == ';') {
        lemma_sgr_params_end(text, k + 1);
    }
}

/// The column a tab moves the cursor to from `col`: the next multiple of
/// eight, at most the last column.
pub open spec fn tab_stop(col: nat, cols: nat) -> nat {
    let t = (col - col % 8 + 8) as nat;
    if t > cols - 1 {
        (cols - 1) as nat
    } else {
        t
    }
}

/// The columns a drawn character takes: its display width, or one column
/// for a character without a width beyond the first 256.
pub open spec fn drawn_width(c: char) -> nat {
    match unicode_char_width(c) {
        Some(w) => w as nat,
        None => 1,
    }
}

/// Whether a single row of `cols` columns takes `text[i..]` with the cursor
/// at column `col`, following the emulator's cursor: a character `w`
/// columns wide (`w > 0`) must fit before the row's end and moves the
/// cursor by `w`, or it would wrap to a row that is not there; backspace
/// moves back a column, a tab to the next tab stop, a carriage return to
/// the first column; other control characters and characters of width 0
/// leave the cursor. Of the escape sequences only SGR sequences (`ESC [`,
/// digits and `;`, `m`) are followed, which leave the cursor; any other
/// escape makes the text one the row is not known to take.
pub open spec fn row_takes(text: Seq<char>, i: int, col: nat, cols: nat) -> bool
    decreases text.len() - i,
{
    if i < 0 || i >= text.len() {
        true
    } else if text[i] == '\u{1b}' {
        let k = sgr_params_end(text, i + 2);
        if i + 1 < text.len() && text[i + 1] == '[' && k < text.len() && text[k] == 'm' {
            proof {
                lemma_sgr_params_end(text, i + 2);
            }
            row_takes(text, k + 1, col, cols)
        } else {
            false
        }
    } else if (text[i] as u32) < 0x20 {
        if text[i] == '\u{8}' {
            row_takes(text, i + 1, if col > 0 { (col - 1) as nat } else { 0 }, cols)
        } else if text[i] == '\t' {
            col - col % 8 + 8 <= 0xffff && row_takes(text, i + 1, tab_stop(col, cols), cols)
        } else if text[i] == '\r' {
            row_takes(text, i + 1, 0, cols)
        } else {
            row_takes(text, i + 1, col, cols)
        }
    } else if 0x7f <= (text[i] as u32) && (text[i] as u32) <= 0x9f || drawn_width(text[i]) == 0 {
        row_takes(text, i + 1, col, cols)
    } else {
        col + drawn_width(text[i]) <= cols && row_takes(text, i + 1, col + drawn_width(text[i]), cols)
    }
}

/// Whether a single row of `cols` columns takes `text` (see `row_takes`).
pub fn single_row_takes(text: &str, cols: u16) -> (res: bool)
    requires
        cols >= 1,
    ensures
        res == row_takes(text@, 0, 0, cols as nat),
{
    let cs = chars_of(text);
    let len = cs.len();
    let ncols: usize = cols as usize;
    let mut col: usize = 0;
    let mut i: usize = 0;
    while i < len
        invariant
            cs@ == text@,
            len == cs@.len(),
            ncols == cols,
            ncols >= 1,
            col <= ncols,
            i <= len,
            row_takes(text@, 0, 0, cols as nat) == row_takes(text@, i as int, col as nat, cols as nat),
        decreases len - i,
    {
        let c = cs[i];
        if c == '\u{1b}' {
            if i + 1 >= len || cs[i + 1] != '[' {
                return false;
            }
            let mut k: usize = i + 2;
            while k < len && (('0' <= cs[k] && cs[k] <= '9') || cs[k] == ';')
                invariant
                    cs@ == text@,
                    len == cs@.len(),
                    i + 2 <= k <= len,
                    sgr_params_end(text@, i + 2) == sgr_params_end(text@, k as int),
                decreases len - k,
            {
                k += 1;
            }
            if k >= len || cs[k] != 'm' {
                return false;
            }
            i = k + 1;
        } else if (c as u32) < 0x20 {
            if c == '\u{8}' {
                if col > 0 {
                    col = col - 1;
                }
            } else if c == '\t' {
                let t: usize = col - col % 8 + 8;
                if t > 0xffff {
                    return false;
                }
                col = if t > ncols - 1 { ncols - 1 } else { t };
            } else if c == '\r' {
                col = 0;
            }
            i += 1;
        } else {
            let w: usize = match char_width(c) {
                Some(w) => w,
                None => 1,
            };
            if (0x7f <= (c as u32) && (c as u32) <= 0x9f) || w == 0 {
                i += 1;
            } else {
                if w > ncols - col {
                    return false;
                }
                col = col + w;
                i += 1;
            }
        }
    }
    true
}

/// Whether a `rows` by `cols` screen of the terminal emulator can take
/// `text`. It needs a row and a column, and a second column if a character
/// of the text is two columns wide: the emulator cannot place such a
/// character on a screen one column wide. On a single row, no character may
/// wrap to a next row, which the emulator cannot do there either (see
/// `row_takes`).
pub open spec fn screen_takes(rows: u16, cols: u16, text: Seq<char>) -> bool {
    &&& rows >= 1
    &&& cols >= 1
    &&& (cols >= 2 || !has_wide_char_spec(text))
    &&& (rows >= 2 || row_takes(text, 0, 0, cols as nat))
}

/// A cell of the terminal screen: its text and foreground colour.
#[derive(Debug)]
pub struct ScreenCell {
    pub contents: String,
    pub color: CellColor,
}

/// The screen that the terminal emulator `vt100` shows after a `rows` by
/// `cols` terminal (without scrollback) has processed `text`: every cell's
/// text and foreground colour, row by row.
pub uninterp spec fn vt100_screen(rows: u16, cols: u16, text: Seq<char>) -> Seq<Seq<(Seq<char>, CellColor)>>;

/// The views of screen cells.
pub open spec fn cells_view(cells: Seq<Vec<ScreenCell>>) -> Seq<Seq<(Seq<char>, CellColor)>> {
    cells.map_values(|row: Vec<ScreenCell>| row@.map_values(|c: ScreenCell| (c.contents@, c.color)))
}

/// Calls `vt100::Parser::new` for a `rows` by `cols` screen without
/// scrollback, feeds it `text` with `process`, and reads every cell of its
/// screen; the contract names the cells, which depend on the arguments
/// alone, and states that the screen has `rows` rows of `cols` cells, as
/// the parser's grid is made. The screen must take the text (see
/// `screen_takes`): the emulator panics on a screen without rows or
/// columns, on a character two columns wide in a single column, and on a
/// character that wraps on a single row. That it takes every other text is
/// what its code for placing characters, wrapping and scrolling shows.
#[verifier::external_body]
fn screen_cells(rows: u16, cols: u16, text: &str) -> (res: Vec<Vec<ScreenCell>>)
    requires
        screen_takes(rows, cols, text@),
    ensures
        res@.len() == rows,
        forall|r: int| 0 <= r < rows ==> (#[trigger] res@[r])@.len() == cols,
        cells_view(res@) == vt100_screen(rows, cols, text@),
{
    let mut parser = vt100::Parser::new(rows, cols, 0);
    parser.process(text.as_bytes());
    let screen = parser.screen();
    (0..rows).map(|r| (0..cols).map(|c| {
        let cell = screen.cell(r, c).expect("inside screen");
        let color = match cell.fgcolor() {
            vt100::Color::Default => CellColor::Default,
            vt100::Color::Idx(i) => CellColor::Idx(i),
            vt100::Color::Rgb(r, g, b) => CellColor::Rgb(r, g, b),
        };
        ScreenCell { contents: cell.contents(), color }
    }).collect()).collect()
}

/// A run of text to draw: in a cell's colour, or in the default style
/// when `color` is `None`.
#[derive(Debug)]
pub struct Span {
    pub text: String,
    pub color: Option<u32>,
}

/// The spans of one screen row: each cell with text, in its colour.
pub open spec fn row_spans(row: Seq<(Seq<char>, CellColor)>, p: Palette) -> Seq<(Seq<char>, Option<u32>)>
    decreases row.len(),
{
    if row.len() == 0 {
        seq![]
    } else {
        let c = row.last();
        let rest = row_spans(row.drop_last(), p);
        if c.0.len() > 0 {
            rest.push((c.0, Some(cell_color_value(c.1, p))))
        } else {
            rest
        }
    }
}

/// The spans of a row are its cells with text, in order and each in its
/// cell's theme colour: no more spans than cells, none of them empty, and
/// a row whose cells are all empty gives none.
pub proof fn lemma_row_spans(row: Seq<(Seq<char>, CellColor)>, p: Palette)
    ensures
        row_spans(row, p).len() <= row.len(),
        forall|k: int| 0 <= k < row_spans(row, p).len() ==> (#[trigger] row_spans(row, p)[k]).0.len() > 0 && exists|j: int|
            0 <= j < row.len() && row[j].0 == row_spans(row, p)[k].0 && row_spans(row, p)[k].1 == Some(
                cell_color_value(row[j].1, p),
            ),
        (forall|j: int| 0 <= j < row.len() ==> (#[trigger] row[j]).0.len() == 0) ==> row_spans(row, p).len() == 0,
    decreases row.len(),
{
    if row.len() > 0 {
        let init = row.drop_last();
        lemma_row_spans(init, p);
        let rest = row_spans(init, p);
        assert forall|k: int| 0 <= k < row_spans(row, p).len() implies (#[trigger] row_spans(row, p)[k]).0.len() > 0
            && exists|j: int| 0 <= j < row.len() && row[j].0 == row_spans(row, p)[k].0 && row_spans(row, p)[k].1
                == Some(cell_color_value(row[j].1, p)) by {
            if k < rest.len() {
                assert(row_spans(row, p)[k] == rest[k]);
                let j = choose|j: int| 0 <= j < init.len() && init[j].0 == rest[k].0 && rest[k].1 == Some(
                    cell_color_value(init[j].1, p),
                );
                assert(row[j] == init[j]);
            } else {
                assert(row[row.len() - 1] == row.last());
            }
        }
        if forall|j: int| 0 <= j < row.len() ==> (#[trigger] row[j]).0.len() == 0 {
            assert forall|j: int| 0 <= j < init.len() implies (#[trigger] init[j]).0.len() == 0 by {
                assert(row[j] == init[j]);
            }
            assert(row[row.len() - 1] == row.last());
        }
    }
}

/// The spans of a screen: every row's spans followed by a line break.
pub open spec fn screen_spans(rows: Seq<Seq<(Seq<char>, CellColor)>>, p: Palette) -> Seq<(Seq<char>, Option<u32>)>
    decreases rows.len(),
{
    if rows.len() == 0 {
        seq![]
    } else {
        screen_spans(rows.drop_last(), p) + row_spans(rows.last(), p).push(("\n"@, None))
    }
}

/// A screen gives at least one span per row, and its spans end with the
/// line break that closes the last row; an empty screen gives none.
pub proof fn lemma_screen_spans(rows: Seq<Seq<(Seq<char>, CellColor)>>, p: Palette)
    ensures
        screen_spans(rows, p).len() >= rows.len(),
        rows.len() == 0 ==> screen_spans(rows, p).len() == 0,
        rows.len() > 0 ==> screen_spans(rows, p).last() == ("\n"@, None::<u32>),
    decreases rows.len(),
{
    if rows.len() > 0 {
        lemma_screen_spans(rows.drop_last(), p);
    }
}

/// The views of spans.
pub open spec fn spans_view(spans: Seq<Span>) -> Seq<(Seq<char>, Option<u32>)> {
    spans.map_values(|s: Span| (s.text@, s.color))
}

/// The spans to draw for a screen.
pub fn render_spans(cells: &Vec<Vec<ScreenCell>>, p: &Palette) -> (res: Vec<Span>)
    ensures
        spans_view(res@) == screen_spans(cells_view(cells@), *p),
{
    let mut out: Vec<Span> = Vec::new();
    let mut r: usize = 0;
    while r < cells.len()
        invariant
            r <= cells@.len(),
            spans_view(out@) == screen_spans(cells_view(cells@.take(r as int)), *p),
        decreases cells.len() - r,
    {
        let row = &cells[r];
        let ghost before = spans_view(out@);
        let ghost rv = row@.map_values(|c: ScreenCell| (c.contents@, c.color));
        assert(rv == cells_view(cells@)[r as int]);
        let mut c: usize = 0;
        while c < row.len()
            invariant
                c <= row@.len(),
                rv == row@.map_values(|c: ScreenCell| (c.contents@, c.color)),
                spans_view(out@) == before + row_spans(rv.take(c as int), *p),
            decreases row.len() - c,
        {
            let cell = &row[c];
            let ghost prev = spans_view(out@);
            assert(rv.take(c as int + 1).drop_last() =~= rv.take(c as int));
            assert(rv.take(c as int + 1).last() == (cell.contents@, cell.color));
            if cell.contents.as_str().unicode_len() > 0 {
                out.push(Span { text: cell.contents.clone(), color: Some(cell_color(cell.color, p)) });
                assert(spans_view(out@) =~= prev.push((cell.contents@, Some(cell_color_value(cell.color, *p)))));
            } else {
                assert(spans_view(out@) == prev);
            }
            c += 1;
        }
        assert(rv.take(row@.len() as int) =~= rv);
        let ghost prev = spans_view(out@);
        out.push(Span { text: "\n".to_owned(), color: None });
        assert(spans_view(out@) =~= prev.push(("\n"@, None)));
        assert(cells_view(cells@.take(r as int + 1)).drop_last() =~= cells_view(cells@.take(r as int)));
        assert(cells_view(cells@.take(r as int + 1)).last() == cells_view(cells@)[r as int]);
        assert(before + row_spans(cells_view(cells@)[r as int], *p).push(("\n"@, None))
            =~= before + row_spans(cells_view(cells@)[r as int], *p) + seq![("\n"@, None::<u32>)]);
        r += 1;
    }
    assert(cells@.take(cells@.len() as int) =~= cells@);
    out
}

/// The layout of `input` on a terminal: its size, and the spans to draw.
pub open spec fn terminal_layout(input: Seq<char>, p: Palette) -> (u16, u16, Seq<(Seq<char>, Option<u32>)>) {
    let rows = terminal_rows(input);
    let cols = terminal_cols(input);
    (rows, cols, screen_spans(vt100_screen(rows, cols, padded_rows(lines(input), cols)), p))
}

/// Whether the terminal sized for `input` can take its padded lines.
pub open spec fn terminal_takes(input: Seq<char>) -> bool {
    let cols = terminal_cols(input);
    screen_takes(terminal_rows(input), cols, padded_rows(lines(input), cols))
}

/// Lays `input` out on a terminal: sized to its lines and columns, fed the
/// padded lines, and read back as spans to draw. `None` when that terminal
/// cannot take the text (see `screen_takes`): it would have no row (no
/// lines, or a line count that is a multiple of 65536) or no column (no
/// visible text, or a longest line whose length is a multiple of 65536),
/// one column and a character two columns wide, or a single row and a text
/// that wraps, or holds an escape sequence other than SGR.
pub fn terminal_spans(input: &str, p: &Palette) -> (res: Option<(u16, u16, Vec<Span>)>)
    requires
        input@.len() + 65536 <= usize::MAX,
    ensures
        res is Some <==> terminal_takes(input@),
        res matches Some(r) ==> (r.0, r.1, spans_view(r.2@)) == terminal_layout(input@, *p),
{
    let (rows, cols) = terminal_size(input);
    let padded = pad_lines(input, cols);
    if rows == 0 || cols == 0 {
        return None;
    }
    if cols < 2 && has_wide_char(padded.as_str()) {
        return None;
    }
    if rows < 2 && !single_row_takes(padded.as_str(), cols) {
        return None;
    }
    let cells = screen_cells(rows, cols, padded.as_str());
    let spans = render_spans(&cells, p);
    Some((rows, cols, spans))
}

/// A final line break keeps the terminal's rows and the padded text; where
/// it keeps the columns too (they come from the text without escape
/// sequences), it keeps the whole layout.
pub proof fn lemma_trailing_newline_layout(s: Seq<char>, p: Palette)
    requires
        s.len() > 0,
        s.last() != '\n',
        s.last() != '\r',
    ensures
        terminal_rows(s + "\n"@) == terminal_rows(s),
        forall|cols: u16| #[trigger] padded_rows(lines(s + "\n"@), cols) == padded_rows(lines(s), cols),
        terminal_cols(s + "\n"@) == terminal_cols(s) ==> terminal_layout(s + "\n"@, p) == terminal_layout(s, p)
            && terminal_takes(s + "\n"@) == terminal_takes(s),
{
    lemma_lines_trailing_newline(s);
}

/// Line breaks written as `"\r\n"` keep the terminal's rows and the padded
/// text of a text without carriage returns; where they keep the columns
/// too, they keep the whole layout.
pub proof fn lemma_crlf_layout(s: Seq<char>, p: Palette)
    requires
        !s.contains('\r'),
    ensures
        terminal_rows(crlf(s)) == terminal_rows(s),
        forall|cols: u16| #[trigger] padded_rows(lines(crlf(s)), cols) == padded_rows(lines(s), cols),
        terminal_cols(crlf(s)) == terminal_cols(s) ==> terminal_layout(crlf(s), p) == terminal_layout(s, p)
            && terminal_takes(crlf(s)) == terminal_takes(s),
{
    lemma_lines_crlf(s);
}

/// The longest row bounds every row, and is the length of one of them (0
/// when there are none).
pub proof fn lemma_max_row_len(rows: Seq<Seq<char>>)
    ensures
        forall|k: int| 0 <= k < rows.len() ==> (#[trigger] rows[k]).len() <= max_row_len(rows),
        rows.len() == 0 ==> max_row_len(rows) == 0,
        rows.len() > 0 ==> exists|k: int| 0 <= k < rows.len() && (#[trigger] rows[k]).len() == max_row_len(rows),
    decreases rows.len(),
{
    if rows.len() > 0 {
        let init = rows.drop_last();
        lemma_max_row_len(init);
        assert forall|k: int| 0 <= k < rows.len() implies (#[trigger] rows[k]).len() <= max_row_len(rows) by {
            if k < rows.len() - 1 {
                assert(rows[k] == init[k]);
            }
        }
        if rows.last().len() > max_row_len(init) || init.len() == 0 {
            assert(rows[rows.len() - 1].len() == max_row_len(rows));
        } else {
            let k = choose|k: int| 0 <= k < init.len() && (#[trigger] init[k]).len() == max_row_len(init);
            assert(rows[k] == init[k]);
        }
    }
}

/// The terminal's columns, when every visible line (a line of the text
/// without escape sequences) is shorter than 65536: no visible line is
/// longer, and one is exactly that long (0 when there are none).
pub proof fn lemma_terminal_cols(input: Seq<char>)
    requires
        forall|k: int| 0 <= k < lines(ansi_stripped(input)).len() ==> (#[trigger] lines(ansi_stripped(input))[k]).len()
            < 65536,
    ensures
        forall|k: int| 0 <= k < lines(ansi_stripped(input)).len() ==> (#[trigger] lines(ansi_stripped(input))[k]).len()
            <= terminal_cols(input),
        lines(ansi_stripped(input)).len() == 0 ==> terminal_cols(input) == 0,
        lines(ansi_stripped(input)).len() > 0 ==> exists|k: int|
            0 <= k < lines(ansi_stripped(input)).len() && (#[trigger] lines(ansi_stripped(input))[k]).len()
                == terminal_cols(input),
{
    let ls = lines(ansi_stripped(input));
    lemma_max_row_len(ls);
    let m = max_row_len(ls);
    if ls.len() > 0 {
        let k = choose|k: int| 0 <= k < ls.len() && (#[trigger] ls[k]).len() == m;
        assert(m < 65536);
    }
    assert((m as u16) == m);
}

/// The terminal's rows: one per line of the input, at most `MAX_ROWS`;
/// the line count is taken modulo 65536, as a 16-bit count holds it.
pub proof fn lemma_terminal_rows(input: Seq<char>)
    ensures
        terminal_rows(input) <= MAX_ROWS,
        lines(input).len() < 65536 ==> terminal_rows(input) <= lines(input).len(),
        lines(input).len() < 65536 ==> (terminal_rows(input) == lines(input).len() || terminal_rows(input)
            == MAX_ROWS),
        lines(input).len() < 65536 && lines(input).len() >= MAX_ROWS ==> terminal_rows(input) == MAX_ROWS,
        lines(input).len() < MAX_ROWS ==> terminal_rows(input) == lines(input).len(),
{
    let n = lines(input).len();
    if n < 65536 {
        assert((n as u16) == n);
    }
}

/// Padding keeps the line as a prefix and adds spaces up to the width:
/// the result is as long as the longer of the line and the width, for
/// every line, the empty one included.
pub proof fn lemma_pad_to(line: Seq<char>, width: int)
    ensures
        pad_to(line, width).len() == if line.len() >= width { line.len() as int } else { width },
        pad_to(line, width).subrange(0, line.len() as int) == line,
        forall|k: int| line.len() <= k < pad_to(line, width).len() ==> #[trigger] pad_to(line, width)[k] == ' ',
{
    assert(pad_to(line, width).subrange(0, line.len() as int) =~= line);
}

/// The theme colours of a cell: ANSI indices 0 to 7 give the normal
/// colours, 8 to 15 the bright ones in the same order, higher indices and
/// the default the foreground, and a true colour its own red, green and
/// blue, fully opaque.
pub proof fn lemma_cell_color_theme(c: CellColor, p: Palette)
    ensures
        forall|i: u8| i < 8 ==> #[trigger] cell_color_value(CellColor::Idx(i), p) == p.normal@[i as int],
        forall|i: u8| 8 <= i < 16 ==> #[trigger] cell_color_value(CellColor::Idx(i), p) == p.bright@[i - 8],
        forall|i: u8| 16 <= i ==> #[trigger] cell_color_value(CellColor::Idx(i), p) == p.foreground,
        cell_color_value(CellColor::Default, p) == p.foreground,
        c matches CellColor::Rgb(r, g, b) ==> {
            let v = cell_color_value(c, p);
            &&& (v >> 24u32) == 0xffu32
            &&& ((v >> 16u32) & 0xffu32) == r as u32
            &&& ((v >> 8u32) & 0xffu32) == g as u32
            &&& (v & 0xffu32) == b as u32
        },
{
    if let CellColor::Rgb(r, g, b) = c {
        lemma_rgb_components(r, g, b);
    }
}

/// The bounding box of the glyphs drawn so far.
#[derive(Clone, Copy, Debug, PartialEq, Eq, Structural)]
pub struct Bounds {
    pub min_x: i32,
    pub min_y: i32,
    pub max_x: i32,
    pub max_y: i32,
}

impl Bounds {
    /// The box before anything is drawn.
    pub fn new() -> (res: Bounds)
        ensures
            res == (Bounds { min_x: i32::MAX, min_y: i32::MAX, max_x: 0, max_y: 0 }),
    {
        Bounds { min_x: i32::MAX, min_y: i32::MAX, max_x: 0, max_y: 0 }
    }

    /// Grows the box to cover a glyph of `w` by `h` pixels at (`x`, `y`).
    pub fn cover(&mut self, x: i32, y: i32, w: u32, h: u32)
        requires
            w <= i32::MAX,
            h <= i32::MAX,
            i32::MIN <= x + w <= i32::MAX,
            i32::MIN <= y + h <= i32::MAX,
        ensures
            final(self).min_x == if x < old(self).min_x { x } else { old(self).min_x },
            final(self).min_y == if y < old(self).min_y { y } else { old(self).min_y },
            final(self).max_x == if x + w > old(self).max_x { (x + w) as i32 } else { old(self).max_x },
            final(self).max_y == if y + h > old(self).max_y { (y + h) as i32 } else { old(self).max_y },
    {
        if x < self.min_x {
            self.min_x = x;
        }
        if y < self.min_y {
            self.min_y = y;
        }
        let right = x + w as i32;
        if right > self.max_x {
            self.max_x = right;
        }
        let bottom = y + h as i32;
        if bottom > self.max_y {
            self.max_y = bottom;
        }
    }

    /// Whether nothing has been covered: the box is empty.
    pub open spec fn is_empty(self) -> bool {
        self.min_x > self.max_x || self.min_y > self.max_y
    }

    /// The width and height of the image: the box and a margin on each side;
    /// `None` for an empty box, when no glyph was drawn.
    pub fn image_size(&self) -> (res: Option<(u32, u32)>)
        requires
            self.max_x - self.min_x + 2 * MARGIN <= i32::MAX,
            self.max_y - self.min_y + 2 * MARGIN <= i32::MAX,
        ensures
            res is None <==> self.is_empty(),
            res matches Some(size) ==> size.0 == self.max_x - self.min_x + 2 * MARGIN && size.1 == self.max_y
                - self.min_y + 2 * MARGIN,
    {
        if self.min_x > self.max_x || self.min_y > self.max_y {
            return None;
        }
        let w: i32 = self.max_x - self.min_x + MARGIN * 2;
        let h: i32 = self.max_y - self.min_y + MARGIN * 2;
        Some((w as u32, h as u32))
    }

    /// Where the pixel at (`x`, `y`) lands in the image.
    pub fn image_position(&self, x: i32, y: i32) -> (res: (u32, u32))
        requires
            x + MARGIN <= i32::MAX,
            y + MARGIN <= i32::MAX,
            i32::MIN <= x + MARGIN - self.min_x <= i32::MAX,
            i32::MIN <= y + MARGIN - self.min_y <= i32::MAX,
        ensures
            res.0 == (x + MARGIN - self.min_x) as u32,
            res.1 == (y + MARGIN - self.min_y) as u32,
    {
        let px: i32 = x + MARGIN - self.min_x;
        let py: i32 = y + MARGIN - self.min_y;
        (#[verifier::truncate] (px as u32), #[verifier::truncate] (py as u32))
    }
}

} // verus!
