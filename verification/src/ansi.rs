//! ANSI escape sequences of the terminal commands the progress display
//! writes, produced by `crossterm`.
use crate::text::decimal;
use crossterm::cursor::MoveToColumn;
use crossterm::cursor::MoveUp;
use crossterm::style::Attribute;
use crossterm::style::SetAttribute;
use crossterm::terminal::Clear;
use crossterm::terminal::ClearType;
use crossterm::Command;
use vstd::prelude::*;

verus! {

/// The two text attributes the progress line switches between.
#[derive(Clone, Copy, Debug, PartialEq, Eq, Structural)]
pub enum TextStyle {
    Bold,
    Reset,
}

/// The control sequence introducer, ESC `[`.
pub open spec fn csi() -> Seq<char> {
    seq!['\u{1b}', '[']
}

pub open spec fn move_up_seq(rows: u16) -> Seq<char> {
    csi() + decimal(rows as nat) + seq!['A']
}

pub open spec fn move_to_column_seq(column: u16) -> Seq<char> {
    csi() + decimal(column as nat + 1) + seq!['G']
}

pub open spec fn clear_until_newline_seq() -> Seq<char> {
    csi() + seq!['K']
}

/// The SGR number of a style: 1 for bold, 0 for reset.
pub open spec fn style_code(style: TextStyle) -> nat {
    match style {
        TextStyle::Bold => 1,
        TextStyle::Reset => 0,
    }
}

pub open spec fn set_style_seq(style: TextStyle) -> Seq<char> {
    csi() + decimal(style_code(style)) + seq!['m']
}

/// `MoveUp(rows).write_ansi`: crossterm writes ESC `[`, the row count in
/// decimal, and `A`.
#[verifier::external_body]
pub fn move_up(rows: u16) -> (s: String)
    ensures
        s@ == move_up_seq(rows),
{
    let mut s = String::new();
    let _ = MoveUp(rows).write_ansi(&mut s);
    s
}

/// `MoveToColumn(column).write_ansi`: crossterm writes ESC `[`, the column
/// plus one in decimal, and `G`. The addition overflows at `u16::MAX`, so
/// that column is left out.
#[verifier::external_body]
pub fn move_to_column(column: u16) -> (s: String)
    requires
        column < u16::MAX,
    ensures
        s@ == move_to_column_seq(column),
{
    let mut s = String::new();
    let _ = MoveToColumn(column).write_ansi(&mut s);
    s
}

/// `Clear(ClearType::UntilNewLine).write_ansi`: crossterm writes ESC `[K`.
#[verifier::external_body]
pub fn clear_until_newline() -> (s: String)
    ensures
        s@ == clear_until_newline_seq(),
{
    let mut s = String::new();
    let _ = Clear(ClearType::UntilNewLine).write_ansi(&mut s);
    s
}

/// `SetAttribute(attribute).write_ansi`: crossterm writes ESC `[`, the
/// attribute's SGR number (`Bold` is 1, `Reset` is 0), and `m`.
#[verifier::external_body]
pub fn set_style(style: TextStyle) -> (s: String)
    ensures
        s@ == set_style_seq(style),
{
    let attribute = match style {
        TextStyle::Bold => Attribute::Bold,
        TextStyle::Reset => Attribute::Reset,
    };
    let mut s = String::new();
    let _ = SetAttribute(attribute).write_ansi(&mut s);
    s
}

} // verus!
