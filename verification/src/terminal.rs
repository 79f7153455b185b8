//! Serialising a terminal grid back into escape sequences.
//!
//! The server keeps one virtual terminal per pane. When a client attaches,
//! the pane's visible grid is written out as bytes that, fed to a fresh
//! xterm-compatible terminal, draw the same screen: clear and home, each line
//! from its first column, every glyph with its colours and attributes, and the
//! cursor where it was. Neighbouring cells of the same style share one SGR
//! sequence; at each change of style the terminal is reset (`ESC[0m`) and the
//! new style written in full, so the active style never depends on history.
use vstd::prelude::*;
use vstd::utf8::encode_utf8;

use crate::text::{decimal_spec, push_char, push_decimal, push_str};

verus! {

/// Named colours of the terminal palette.
#[derive(Clone, Copy, Debug, PartialEq, Eq, Structural)]
pub enum NamedColor {
    Black,
    Red,
    Green,
    Yellow,
    Blue,
    Magenta,
    Cyan,
    White,
    BrightBlack,
    BrightRed,
    BrightGreen,
    BrightYellow,
    BrightBlue,
    BrightMagenta,
    BrightCyan,
    BrightWhite,
    /// The default foreground.
    Foreground,
    /// The default background.
    Background,
    /// The cursor's colour.
    Cursor,
    DimBlack,
    DimRed,
    DimGreen,
    DimYellow,
    DimBlue,
    DimMagenta,
    DimCyan,
    DimWhite,
    /// The bright default foreground.
    BrightForeground,
    /// The dim default foreground.
    DimForeground,
}

/// A 24-bit colour.
#[derive(Clone, Copy, Debug, PartialEq, Eq, Structural)]
pub struct Rgb {
    pub r: u8,
    pub g: u8,
    pub b: u8,
}

/// The colour of a cell.
#[derive(Clone, Copy, Debug, PartialEq, Eq, Structural)]
pub enum Color {
    /// A palette colour by name.
    Named(NamedColor),
    /// One of the 256 indexed colours.
    Indexed(u8),
    /// A true colour.
    Spec(Rgb),
}

/// Whether a colour is written as a foreground or a background parameter.
#[derive(Clone, Copy, Debug, PartialEq, Eq, Structural)]
pub enum ColorRole {
    Foreground,
    Background,
}

/// Base of the eight standard colours (30 for foreground, 40 for background).
pub open spec fn standard_base_spec(role: ColorRole) -> u8 {
    match role {
        ColorRole::Foreground => 30,
        ColorRole::Background => 40,
    }
}

/// Base of the eight bright colours (90 / 100).
pub open spec fn bright_base_spec(role: ColorRole) -> u8 {
    match role {
        ColorRole::Foreground => 90,
        ColorRole::Background => 100,
    }
}

/// Lead code of the extended colour forms (38 / 48).
pub open spec fn extended_lead_spec(role: ColorRole) -> u8 {
    match role {
        ColorRole::Foreground => 38,
        ColorRole::Background => 48,
    }
}

/// Code of the default colour (39 / 49).
pub open spec fn default_code_spec(role: ColorRole) -> u8 {
    match role {
        ColorRole::Foreground => 39,
        ColorRole::Background => 49,
    }
}

impl ColorRole {
    /// Base of the eight standard colours.
    pub fn standard_base(self) -> (r: u8)
        ensures
            r == standard_base_spec(self),
    {
        match self {
            ColorRole::Foreground => 30,
            ColorRole::Background => 40,
        }
    }

    /// Base of the eight bright colours.
    pub fn bright_base(self) -> (r: u8)
        ensures
            r == bright_base_spec(self),
    {
        match self {
            ColorRole::Foreground => 90,
            ColorRole::Background => 100,
        }
    }

    /// Lead code of the extended colour forms.
    pub fn extended_lead(self) -> (r: u8)
        ensures
            r == extended_lead_spec(self),
    {
        match self {
            ColorRole::Foreground => 38,
            ColorRole::Background => 48,
        }
    }

    /// Code of the default colour.
    pub fn default_code(self) -> (r: u8)
        ensures
            r == default_code_spec(self),
    {
        match self {
            ColorRole::Foreground => 39,
            ColorRole::Background => 49,
        }
    }
}

/// The SGR code of a named colour: standard and dim colours map to the eight
/// standard codes, bright ones to the bright codes, and the special colours
/// (default, cursor, bright and dim foreground) to the default code.
pub open spec fn named_color_code(n: NamedColor, role: ColorRole) -> nat {
    let s = standard_base_spec(role) as nat;
    let b = bright_base_spec(role) as nat;
    match n {
        NamedColor::Black | NamedColor::DimBlack => s,
        NamedColor::Red | NamedColor::DimRed => s + 1,
        NamedColor::Green | NamedColor::DimGreen => s + 2,
        NamedColor::Yellow | NamedColor::DimYellow => s + 3,
        NamedColor::Blue | NamedColor::DimBlue => s + 4,
        NamedColor::Magenta | NamedColor::DimMagenta => s + 5,
        NamedColor::Cyan | NamedColor::DimCyan => s + 6,
        NamedColor::White | NamedColor::DimWhite => s + 7,
        NamedColor::BrightBlack => b,
        NamedColor::BrightRed => b + 1,
        NamedColor::BrightGreen => b + 2,
        NamedColor::BrightYellow => b + 3,
        NamedColor::BrightBlue => b + 4,
        NamedColor::BrightMagenta => b + 5,
        NamedColor::BrightCyan => b + 6,
        NamedColor::BrightWhite => b + 7,
        NamedColor::Foreground
        | NamedColor::Background
        | NamedColor::Cursor
        | NamedColor::BrightForeground
        | NamedColor::DimForeground => default_code_spec(role) as nat,
    }
}

/// The SGR parameters that select a colour: one code for named colours and
/// indexed colours below 16, `38;5;n` / `48;5;n` for the other indexed
/// colours, and `38;2;r;g;b` / `48;2;r;g;b` for true colours.
pub open spec fn color_params_spec(color: Color, role: ColorRole) -> Seq<char> {
    match color {
        Color::Named(n) => decimal_spec(named_color_code(n, role)),
        Color::Indexed(idx) => if idx < 8 {
            decimal_spec((standard_base_spec(role) + idx) as nat)
        } else if idx < 16 {
            decimal_spec((bright_base_spec(role) + idx - 8) as nat)
        } else {
            decimal_spec(extended_lead_spec(role) as nat) + ";5;"@ + decimal_spec(idx as nat)
        },
        Color::Spec(c) => decimal_spec(extended_lead_spec(role) as nat) + ";2;"@ + decimal_spec(
            c.r as nat,
        ) + ";"@ + decimal_spec(c.g as nat) + ";"@ + decimal_spec(c.b as nat),
    }
}

/// Law: the palette's eight standard colours, Black, Red, Green, Yellow, Blue,
/// Magenta, Cyan and White (numbered 0 to 7), and their dim variants, are
/// written as `30 + k` in the foreground and `40 + k` in the background.
pub proof fn lemma_standard_colors_sgr(n: NamedColor, k: nat)
    requires
        ((n == NamedColor::Black || n == NamedColor::DimBlack) && k == 0)
            || ((n == NamedColor::Red || n == NamedColor::DimRed) && k == 1)
            || ((n == NamedColor::Green || n == NamedColor::DimGreen) && k == 2)
            || ((n == NamedColor::Yellow || n == NamedColor::DimYellow) && k == 3)
            || ((n == NamedColor::Blue || n == NamedColor::DimBlue) && k == 4)
            || ((n == NamedColor::Magenta || n == NamedColor::DimMagenta) && k == 5)
            || ((n == NamedColor::Cyan || n == NamedColor::DimCyan) && k == 6)
            || ((n == NamedColor::White || n == NamedColor::DimWhite) && k == 7),
    ensures
        color_params_spec(Color::Named(n), ColorRole::Foreground) == decimal_spec(30 + k),
        color_params_spec(Color::Named(n), ColorRole::Background) == decimal_spec(40 + k),
{
}

/// Law: the palette's eight bright colours, BrightBlack to BrightWhite
/// (numbered 0 to 7 in the same order), are written as `90 + k` in the
/// foreground and `100 + k` in the background.
pub proof fn lemma_bright_colors_sgr(n: NamedColor, k: nat)
    requires
        (n == NamedColor::BrightBlack && k == 0) || (n == NamedColor::BrightRed && k == 1)
            || (n == NamedColor::BrightGreen && k == 2) || (n == NamedColor::BrightYellow && k == 3)
            || (n == NamedColor::BrightBlue && k == 4) || (n == NamedColor::BrightMagenta && k == 5)
            || (n == NamedColor::BrightCyan && k == 6) || (n == NamedColor::BrightWhite && k == 7),
    ensures
        color_params_spec(Color::Named(n), ColorRole::Foreground) == decimal_spec(90 + k),
        color_params_spec(Color::Named(n), ColorRole::Background) == decimal_spec(100 + k),
{
}

fn named_color_code_exec(n: NamedColor, role: ColorRole) -> (r: u8)
    ensures
        r as nat == named_color_code(n, role),
{
    let s = role.standard_base();
    let b = role.bright_base();
    match n {
        NamedColor::Black | NamedColor::DimBlack => s,
        NamedColor::Red | NamedColor::DimRed => s + 1,
        NamedColor::Green | NamedColor::DimGreen => s + 2,
        NamedColor::Yellow | NamedColor::DimYellow => s + 3,
        NamedColor::Blue | NamedColor::DimBlue => s + 4,
        NamedColor::Magenta | NamedColor::DimMagenta => s + 5,
        NamedColor::Cyan | NamedColor::DimCyan => s + 6,
        NamedColor::White | NamedColor::DimWhite => s + 7,
        NamedColor::BrightBlack => b,
        NamedColor::BrightRed => b + 1,
        NamedColor::BrightGreen => b + 2,
        NamedColor::BrightYellow => b + 3,
        NamedColor::BrightBlue => b + 4,
        NamedColor::BrightMagenta => b + 5,
        NamedColor::BrightCyan => b + 6,
        NamedColor::BrightWhite => b + 7,
        NamedColor::Foreground
        | NamedColor::Background
        | NamedColor::Cursor
        | NamedColor::BrightForeground
        | NamedColor::DimForeground => role.default_code(),
    }
}

/// Appends the SGR parameters that select `color` in `role`.
pub fn append_color_params(out: &mut String, color: Color, role: ColorRole)
    ensures
        final(out)@ == old(out)@ + color_params_spec(color, role),
{
    match color {
        Color::Named(n) => {
            let code = named_color_code_exec(n, role);
            push_decimal(out, code as u64);
        },
        Color::Indexed(idx) => {
            if idx < 8 {
                push_decimal(out, (role.standard_base() + idx) as u64);
            } else if idx < 16 {
                push_decimal(out, (role.bright_base() + (idx - 8)) as u64);
            } else {
                push_decimal(out, role.extended_lead() as u64);
                push_str(out, ";5;");
                push_decimal(out, idx as u64);
                proof {
                    reveal_strlit(";5;");
                }
            }
        },
        Color::Spec(c) => {
            push_decimal(out, role.extended_lead() as u64);
            push_str(out, ";2;");
            push_decimal(out, c.r as u64);
            push_str(out, ";");
            push_decimal(out, c.g as u64);
            push_str(out, ";");
            push_decimal(out, c.b as u64);
            proof {
                reveal_strlit(";2;");
                reveal_strlit(";");
            }
        },
    }
}

/// The visual style of a cell: colours and the attributes SGR can set.
#[derive(Clone, Copy, Debug, PartialEq, Eq, Structural)]
pub struct CellStyle {
    pub fg: Color,
    pub bg: Color,
    pub bold: bool,
    pub dim: bool,
    pub italic: bool,
    pub underline: bool,
    pub inverse: bool,
    pub strikeout: bool,
}

/// The style a terminal has right after `ESC[0m`.
pub open spec fn default_style() -> CellStyle {
    CellStyle {
        fg: Color::Named(NamedColor::Foreground),
        bg: Color::Named(NamedColor::Background),
        bold: false,
        dim: false,
        italic: false,
        underline: false,
        inverse: false,
        strikeout: false,
    }
}

impl CellStyle {
    /// The style after an SGR reset: default colours, no attributes.
    pub fn reset() -> (r: Self)
        ensures
            r == default_style(),
    {
        CellStyle {
            fg: Color::Named(NamedColor::Foreground),
            bg: Color::Named(NamedColor::Background),
            bold: false,
            dim: false,
            italic: false,
            underline: false,
            inverse: false,
            strikeout: false,
        }
    }
}

/// The list `ps` with `p` appended when `on`.
pub open spec fn param_if(ps: Seq<Seq<char>>, on: bool, p: Seq<char>) -> Seq<Seq<char>> {
    if on {
        ps.push(p)
    } else {
        ps
    }
}

/// The attribute parameters of a style, in order: bold 1, dim 2, italic 3,
/// underline 4, inverse 7, strikeout 9.
pub open spec fn flag_params(style: CellStyle) -> Seq<Seq<char>> {
    let p0 = param_if(Seq::empty(), style.bold, "1"@);
    let p1 = param_if(p0, style.dim, "2"@);
    let p2 = param_if(p1, style.italic, "3"@);
    let p3 = param_if(p2, style.underline, "4"@);
    let p4 = param_if(p3, style.inverse, "7"@);
    param_if(p4, style.strikeout, "9"@)
}

/// The SGR parameters of a style: its attribute parameters, then the
/// foreground colour unless it is the default, then the background colour
/// unless it is the default.
pub open spec fn style_params(style: CellStyle) -> Seq<Seq<char>> {
    let p6 = param_if(
        flag_params(style),
        style.fg != Color::Named(NamedColor::Foreground),
        color_params_spec(style.fg, ColorRole::Foreground),
    );
    param_if(
        p6,
        style.bg != Color::Named(NamedColor::Background),
        color_params_spec(style.bg, ColorRole::Background),
    )
}

/// Parameters joined by `;`.
pub open spec fn join_params(ps: Seq<Seq<char>>) -> Seq<char>
    decreases ps.len(),
{
    if ps.len() == 0 {
        Seq::empty()
    } else if ps.len() == 1 {
        ps[0]
    } else {
        join_params(ps.drop_last()) + ";"@ + ps.last()
    }
}

/// What switching to `style` writes: a reset, then (unless the style is the
/// default) one SGR sequence with all of the style's parameters.
pub open spec fn sgr_transition_spec(style: CellStyle) -> Seq<char> {
    if style == default_style() {
        "\x1b[0m"@
    } else {
        "\x1b[0m"@ + "\x1b["@ + join_params(style_params(style)) + "m"@
    }
}

/// What appending one parameter to a list adds to its joined text.
pub open spec fn param_sep(ps: Seq<Seq<char>>, p: Seq<char>) -> Seq<char> {
    if ps.len() == 0 {
        p
    } else {
        ";"@ + p
    }
}

proof fn lemma_join_push(ps: Seq<Seq<char>>, p: Seq<char>)
    ensures
        join_params(ps.push(p)) == join_params(ps) + param_sep(ps, p),
{
    assert(ps.push(p).drop_last() =~= ps);
    if ps.len() == 0 {
        assert(join_params(ps) =~= Seq::<char>::empty());
        assert(join_params(ps.push(p)) =~= join_params(ps) + p);
    }
}

fn push_param_if(
    sgr: &mut String,
    first: &mut bool,
    on: bool,
    p: &str,
    Ghost(ps): Ghost<Seq<Seq<char>>>,
    Ghost(start): Ghost<Seq<char>>,
)
    requires
        *old(first) <==> ps.len() == 0,
        old(sgr)@ == start + join_params(ps),
    ensures
        *final(first) <==> param_if(ps, on, p@).len() == 0,
        final(sgr)@ == start + join_params(param_if(ps, on, p@)),
{
    if on {
        proof {
            lemma_join_push(ps, p@);
            reveal_strlit(";");
        }
        if !*first {
            push_str(sgr, ";");
        }
        push_str(sgr, p);
        *first = false;
        assert(sgr@ =~= start + join_params(ps.push(p@)));
    }
}

fn write_flag_params(out: &mut String, first: &mut bool, style: &CellStyle, Ghost(start): Ghost<Seq<char>>)
    requires
        *old(first),
        old(out)@ == start,
    ensures
        *final(first) <==> flag_params(*style).len() == 0,
        final(out)@ == start + join_params(flag_params(*style)),
{
    let ghost p0 = Seq::<Seq<char>>::empty();
    assert(out@ =~= start + join_params(p0));
    push_param_if(out, first, style.bold, "1", Ghost(p0), Ghost(start));
    let ghost p1 = param_if(p0, style.bold, "1"@);
    push_param_if(out, first, style.dim, "2", Ghost(p1), Ghost(start));
    let ghost p2 = param_if(p1, style.dim, "2"@);
    push_param_if(out, first, style.italic, "3", Ghost(p2), Ghost(start));
    let ghost p3 = param_if(p2, style.italic, "3"@);
    push_param_if(out, first, style.underline, "4", Ghost(p3), Ghost(start));
    let ghost p4 = param_if(p3, style.underline, "4"@);
    push_param_if(out, first, style.inverse, "7", Ghost(p4), Ghost(start));
    let ghost p5 = param_if(p4, style.inverse, "7"@);
    push_param_if(out, first, style.strikeout, "9", Ghost(p5), Ghost(start));
}

fn write_color_params(out: &mut String, first: &mut bool, style: &CellStyle, Ghost(start): Ghost<Seq<char>>)
    requires
        *old(first) <==> flag_params(*style).len() == 0,
        old(out)@ == start + join_params(flag_params(*style)),
    ensures
        final(out)@ == start + join_params(style_params(*style)),
{
    let ghost p6 = flag_params(*style);
    let fg_on = style.fg != Color::Named(NamedColor::Foreground);
    let mut fg = String::new();
    if fg_on {
        append_color_params(&mut fg, style.fg, ColorRole::Foreground);
    }
    assert(fg_on ==> fg@ =~= color_params_spec(style.fg, ColorRole::Foreground));
    push_param_if(out, first, fg_on, fg.as_str(), Ghost(p6), Ghost(start));
    let ghost p7 = param_if(p6, fg_on, fg@);
    let bg_on = style.bg != Color::Named(NamedColor::Background);
    let mut bg = String::new();
    if bg_on {
        append_color_params(&mut bg, style.bg, ColorRole::Background);
    }
    assert(bg_on ==> bg@ =~= color_params_spec(style.bg, ColorRole::Background));
    push_param_if(out, first, bg_on, bg.as_str(), Ghost(p7), Ghost(start));
    assert(param_if(p7, bg_on, bg@) == style_params(*style));
}

/// Writes the switch to `style`: `ESC[0m`, then, unless the style is the
/// default, `ESC[` with the style's parameters joined by `;` and `m`.
pub fn write_sgr_transition(out: &mut String, style: &CellStyle)
    ensures
        final(out)@ == old(out)@ + sgr_transition_spec(*style),
{
    push_str(out, "\x1b[0m");
    if *style == CellStyle::reset() {
        return;
    }
    let ghost before = out@;
    push_str(out, "\x1b[");
    let mut first = true;
    let ghost start = out@;
    write_flag_params(out, &mut first, style, Ghost(start));
    write_color_params(out, &mut first, style, Ghost(start));
    push_str(out, "m");
    assert(out@ =~= old(out)@ + "\x1b[0m"@ + "\x1b["@ + join_params(style_params(*style)) + "m"@);
}

/// One cell of the grid as the snapshot reads it.
#[derive(Clone, Copy, Debug, PartialEq, Eq, Structural)]
pub struct GridCell {
    /// The glyph.
    pub c: char,
    /// Its style.
    pub style: CellStyle,
    /// Whether the cell is the second half of a wide glyph (written once, by its first half).
    pub wide_spacer: bool,
}

/// The visible grid of a terminal and its cursor.
#[derive(Debug)]
pub struct GridSnapshot {
    /// The screen lines, top to bottom.
    pub lines: Vec<Vec<GridCell>>,
    /// The cursor's line (0-based; negative lines are in the scrollback).
    pub cursor_line: i32,
    /// The cursor's column (0-based).
    pub cursor_col: usize,
}

/// The cells of each line.
pub open spec fn lines_view(lines: Seq<Vec<GridCell>>) -> Seq<Seq<GridCell>> {
    lines.map_values(|l: Vec<GridCell>| l@)
}

/// What a cell writes after the style `prev`: nothing for the second half of
/// a wide glyph; else the switch to its style when that differs, and its glyph.
pub open spec fn cell_text(cell: GridCell, prev: CellStyle) -> Seq<char> {
    if cell.wide_spacer {
        Seq::empty()
    } else if cell.style == prev {
        seq![cell.c]
    } else {
        sgr_transition_spec(cell.style).push(cell.c)
    }
}

/// The style in force after a cell.
pub open spec fn style_after_cell(cell: GridCell, prev: CellStyle) -> CellStyle {
    if cell.wide_spacer {
        prev
    } else {
        cell.style
    }
}

/// The style in force after a run of cells.
pub open spec fn cells_style(cells: Seq<GridCell>, prev: CellStyle) -> CellStyle
    decreases cells.len(),
{
    if cells.len() == 0 {
        prev
    } else {
        style_after_cell(cells.last(), cells_style(cells.drop_last(), prev))
    }
}

/// What a run of cells writes, starting after the style `prev`.
pub open spec fn cells_text(cells: Seq<GridCell>, prev: CellStyle) -> Seq<char>
    decreases cells.len(),
{
    if cells.len() == 0 {
        Seq::empty()
    } else {
        cells_text(cells.drop_last(), prev) + cell_text(cells.last(), cells_style(cells.drop_last(), prev))
    }
}

/// The cursor-position sequence `ESC[<line>;<col>H` (1-based).
pub open spec fn cup(line: nat, col: nat) -> Seq<char> {
    "\x1b["@ + decimal_spec(line) + ";"@ + decimal_spec(col) + "H"@
}

/// The style in force after some lines.
pub open spec fn lines_style(lines: Seq<Seq<GridCell>>, prev: CellStyle) -> CellStyle
    decreases lines.len(),
{
    if lines.len() == 0 {
        prev
    } else {
        cells_style(lines.last(), lines_style(lines.drop_last(), prev))
    }
}

/// What the lines write: each line is moved to at its first column, then its
/// cells follow; the style carries over from one line to the next.
pub open spec fn lines_text(lines: Seq<Seq<GridCell>>, prev: CellStyle) -> Seq<char>
    decreases lines.len(),
{
    if lines.len() == 0 {
        Seq::empty()
    } else {
        lines_text(lines.drop_last(), prev) + cup(lines.len(), 1) + cells_text(
            lines.last(),
            lines_style(lines.drop_last(), prev),
        )
    }
}

/// The 1-based cursor line (lines above the screen count as the first; saturating).
pub open spec fn cursor_line_number(line: i32) -> nat {
    if line < 0 {
        1
    } else if line == i32::MAX {
        i32::MAX as nat
    } else {
        (line + 1) as nat
    }
}

/// The 1-based cursor column (saturating).
pub open spec fn cursor_col_number(col: usize) -> nat {
    if col == usize::MAX {
        usize::MAX as nat
    } else {
        (col + 1) as nat
    }
}

/// The snapshot text: clear, home and reset; the lines; a reset; the cursor position.
pub open spec fn snapshot_text(lines: Seq<Seq<GridCell>>, cursor_line: i32, cursor_col: usize) -> Seq<char> {
    "\x1b[2J\x1b[H\x1b[0m"@ + lines_text(lines, default_style()) + "\x1b[0m"@ + cup(
        cursor_line_number(cursor_line),
        cursor_col_number(cursor_col),
    )
}

fn write_cup(out: &mut String, line: u64, col: u64)
    ensures
        final(out)@ == old(out)@ + cup(line as nat, col as nat),
{
    push_str(out, "\x1b[");
    push_decimal(out, line);
    push_str(out, ";");
    push_decimal(out, col);
    push_str(out, "H");
    assert(out@ =~= old(out)@ + cup(line as nat, col as nat));
}

fn write_cells(out: &mut String, cells: &Vec<GridCell>, prev: &mut CellStyle)
    ensures
        final(out)@ == old(out)@ + cells_text(cells@, *old(prev)),
        *final(prev) == cells_style(cells@, *old(prev)),
{
    let ghost start = out@;
    let ghost p0 = *prev;
    let n = cells.len();
    let mut j: usize = 0;
    assert(cells@.take(0) =~= Seq::<GridCell>::empty());
    while j < n
        invariant
            n == cells@.len(),
            j <= n,
            out@ == start + cells_text(cells@.take(j as int), p0),
            *prev == cells_style(cells@.take(j as int), p0),
        decreases n - j,
    {
        let cell = cells[j];
        assert(cells@.take(j + 1).drop_last() =~= cells@.take(j as int));
        if !cell.wide_spacer {
            if cell.style != *prev {
                write_sgr_transition(out, &cell.style);
                *prev = cell.style;
            }
            push_char(out, cell.c);
        }
        assert(out@ =~= start + cells_text(cells@.take(j + 1), p0));
        j = j + 1;
    }
    assert(cells@.take(n as int) =~= cells@);
}

/// Serialises a grid into the bytes that redraw it on a fresh terminal.
pub fn render_snapshot(grid: &GridSnapshot) -> (r: Vec<u8>)
    ensures
        r@ == encode_utf8(snapshot_text(lines_view(grid.lines@), grid.cursor_line, grid.cursor_col)),
{
    let ghost lv = lines_view(grid.lines@);
    let mut out = String::new();
    push_str(&mut out, "\x1b[2J\x1b[H\x1b[0m");
    let ghost header = out@;
    let mut prev = CellStyle::reset();
    let n = grid.lines.len();
    let mut i: usize = 0;
    assert(lv.take(0) =~= Seq::<Seq<GridCell>>::empty());
    while i < n
        invariant
            n == grid.lines@.len(),
            lv == lines_view(grid.lines@),
            i <= n,
            out@ == header + lines_text(lv.take(i as int), default_style()),
            prev == lines_style(lv.take(i as int), default_style()),
        decreases n - i,
    {
        assert(lv.take(i + 1).drop_last() =~= lv.take(i as int));
        write_cup(&mut out, (i + 1) as u64, 1);
        write_cells(&mut out, &grid.lines[i], &mut prev);
        assert(out@ =~= header + lines_text(lv.take(i + 1), default_style()));
        i = i + 1;
    }
    assert(lv.take(n as int) =~= lv);
    push_str(&mut out, "\x1b[0m");
    let line: i32 = if grid.cursor_line < 0 {
        1
    } else if grid.cursor_line == i32::MAX {
        i32::MAX
    } else {
        grid.cursor_line + 1
    };
    let col: usize = if grid.cursor_col == usize::MAX {
        usize::MAX
    } else {
        grid.cursor_col + 1
    };
    write_cup(&mut out, line as u64, col as u64);
    assert(out@ =~= snapshot_text(lv, grid.cursor_line, grid.cursor_col));
    out.as_str().as_bytes_vec()
}

} // verus!
