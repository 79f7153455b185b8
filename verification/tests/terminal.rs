//! Serialising terminal grids.

use winmux::terminal::{
    append_color_params, render_snapshot, write_sgr_transition, CellStyle, Color, ColorRole, GridCell,
    GridSnapshot, NamedColor, Rgb,
};

fn plain(c: char) -> GridCell {
    GridCell { c, style: CellStyle::reset(), wide_spacer: false }
}

fn params(color: Color, role: ColorRole) -> String {
    let mut s = String::new();
    append_color_params(&mut s, color, role);
    s
}

#[test]
fn colour_parameters() {
    assert_eq!(params(Color::Named(NamedColor::Red), ColorRole::Foreground), "31");
    assert_eq!(params(Color::Named(NamedColor::BrightWhite), ColorRole::Background), "107");
    assert_eq!(params(Color::Named(NamedColor::DimBlue), ColorRole::Foreground), "34");
    assert_eq!(params(Color::Named(NamedColor::Cursor), ColorRole::Background), "49");
    assert_eq!(params(Color::Indexed(3), ColorRole::Background), "43");
    assert_eq!(params(Color::Indexed(9), ColorRole::Foreground), "91");
    assert_eq!(params(Color::Indexed(200), ColorRole::Foreground), "38;5;200");
    assert_eq!(params(Color::Spec(Rgb { r: 10, g: 20, b: 30 }), ColorRole::Background), "48;2;10;20;30");
}

#[test]
fn style_transitions() {
    let mut s = String::new();
    write_sgr_transition(&mut s, &CellStyle::reset());
    assert_eq!(s, "\x1b[0m");
    let mut style = CellStyle::reset();
    style.bold = true;
    style.underline = true;
    style.fg = Color::Named(NamedColor::Red);
    style.bg = Color::Indexed(200);
    let mut s = String::new();
    write_sgr_transition(&mut s, &style);
    assert_eq!(s, "\x1b[0m\x1b[1;4;31;48;5;200m");
    let mut only_bg = CellStyle::reset();
    only_bg.bg = Color::Named(NamedColor::Green);
    let mut s = String::new();
    write_sgr_transition(&mut s, &only_bg);
    assert_eq!(s, "\x1b[0m\x1b[42m");
}

#[test]
fn blank_grid_snapshot() {
    let grid = GridSnapshot { lines: vec![vec![plain(' '); 2]; 2], cursor_line: 0, cursor_col: 0 };
    let snap = render_snapshot(&grid);
    assert_eq!(snap, b"\x1b[2J\x1b[H\x1b[0m\x1b[1;1H  \x1b[2;1H  \x1b[0m\x1b[1;1H");
}

#[test]
fn styles_are_written_at_changes_only() {
    let mut red = CellStyle::reset();
    red.fg = Color::Named(NamedColor::Red);
    let cell = |c: char, style: CellStyle| GridCell { c, style, wide_spacer: false };
    let grid = GridSnapshot {
        lines: vec![
            vec![cell('R', red), cell('E', red), cell(' ', CellStyle::reset())],
            vec![cell('x', CellStyle::reset()), GridCell { c: ' ', style: red, wide_spacer: true }],
        ],
        cursor_line: 1,
        cursor_col: 10,
    };
    let snap = render_snapshot(&grid);
    let expected = "\x1b[2J\x1b[H\x1b[0m\x1b[1;1H\x1b[0m\x1b[31mRE\x1b[0m \x1b[2;1Hx\x1b[0m\x1b[2;11H";
    assert_eq!(snap, expected.as_bytes());
}

#[test]
fn wide_glyphs_are_written_once_and_cursor_saturates() {
    let grid = GridSnapshot {
        lines: vec![vec![plain('한'), GridCell { c: ' ', style: CellStyle::reset(), wide_spacer: true }]],
        cursor_line: -5,
        cursor_col: usize::MAX,
    };
    let snap = render_snapshot(&grid);
    let expected = format!("\x1b[2J\x1b[H\x1b[0m\x1b[1;1H한\x1b[0m\x1b[1;{}H", usize::MAX);
    assert_eq!(snap, expected.as_bytes());
}
