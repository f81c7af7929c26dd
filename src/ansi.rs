use vstd::prelude::*;
use crossterm::cursor::{MoveTo, MoveToColumn, MoveToNextLine};
use crossterm::style::{Color, SetBackgroundColor};
use crossterm::Command;
use crate::text::decimal;

verus! {

/// A background color: the fixed overlay color, or an entry of the
/// 256-color palette.
#[derive(Clone, Copy, Debug, PartialEq, Eq, Structural)]
pub enum Shade {
    Black,
    Palette(u8),
}

/// The palette code that a shade is written with.
pub open spec fn shade_code(s: Shade) -> nat {
    match s {
        Shade::Black => 0,
        Shade::Palette(v) => v as nat,
    }
}

/// The control sequence introducer, ESC `[`.
pub open spec fn csi() -> Seq<char> {
    seq!['\x1b', '[']
}

/// Moves the terminal cursor to zero-based `(col, row)`.
pub open spec fn move_to_seq(col: u16, row: u16) -> Seq<char> {
    csi() + decimal(row as nat + 1) + seq![';'] + decimal(col as nat + 1) + seq!['H']
}

/// Moves the terminal cursor to zero-based column `col` of its row.
pub open spec fn move_to_column_seq(col: u16) -> Seq<char> {
    csi() + decimal(col as nat + 1) + seq!['G']
}

/// Moves the terminal cursor `n` lines down, to the first column.
pub open spec fn next_line_seq(n: u16) -> Seq<char> {
    csi() + decimal(n as nat) + seq!['E']
}

/// Sets the background color.
pub open spec fn background_seq(s: Shade) -> Seq<char> {
    csi() + seq!['4', '8', ';', '5', ';'] + decimal(shade_code(s)) + seq!['m']
}

/// Relies on crossterm's `Command::write_ansi` for `cursor::MoveTo`, which writes
/// `ESC [ row+1 ; col+1 H`; the additions are made in `u16`.
#[verifier::external_body]
pub(crate) fn move_to_text(col: u16, row: u16) -> (r: String)
    requires
        col < u16::MAX,
        row < u16::MAX,
    ensures
        r@ == move_to_seq(col, row),
{
    let mut r = String::new();
    let _ = MoveTo(col, row).write_ansi(&mut r);
    r
}

/// Relies on crossterm's `Command::write_ansi` for `cursor::MoveToColumn`, which writes
/// `ESC [ col+1 G`; the addition is made in `u16`.
#[verifier::external_body]
pub(crate) fn move_to_column_text(col: u16) -> (r: String)
    requires
        col < u16::MAX,
    ensures
        r@ == move_to_column_seq(col),
{
    let mut r = String::new();
    let _ = MoveToColumn(col).write_ansi(&mut r);
    r
}

/// Relies on crossterm's `Command::write_ansi` for `cursor::MoveToNextLine`, which writes
/// `ESC [ n E`.
#[verifier::external_body]
pub(crate) fn next_line_text(n: u16) -> (r: String)
    ensures
        r@ == next_line_seq(n),
{
    let mut r = String::new();
    let _ = MoveToNextLine(n).write_ansi(&mut r);
    r
}

/// Relies on crossterm's `Command::write_ansi` for `style::SetBackgroundColor`, which
/// writes `ESC [ 48;5;v m` for `Color::AnsiValue(v)` and `ESC [ 48;5;0 m`
/// for `Color::Black`.
#[verifier::external_body]
pub(crate) fn background_text(s: Shade) -> (r: String)
    ensures
        r@ == background_seq(s),
{
    let color = match s {
        Shade::Black => Color::Black,
        Shade::Palette(v) => Color::AnsiValue(v),
    };
    let mut r = String::new();
    let _ = SetBackgroundColor(color).write_ansi(&mut r);
    r
}

} // verus!
