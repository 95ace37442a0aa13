//! Control sequences, produced by `termion` and described as plain text.

use vstd::prelude::*;

verus! {

/// The character that writes the decimal digit `d`.
pub open spec fn digit(d: nat) -> char {
    seq!['0', '1', '2', '3', '4', '5', '6', '7', '8', '9'][d as int]
}

/// The decimal numeral of `n`, without sign or leading zeros.
pub open spec fn decimal(n: nat) -> Seq<char>
    decreases n,
{
    if n < 10 {
        seq![digit(n)]
    } else {
        decimal(n / 10).push(digit(n % 10))
    }
}

/// The two characters that introduce a control sequence.
pub open spec fn csi() -> Seq<char> {
    seq!['\x1b', '[']
}

/// The sequence that moves the cursor to a column and row.
pub open spec fn goto_text(column: u16, row: u16) -> Seq<char> {
    csi() + decimal(row as nat) + seq![';'] + decimal(column as nat) + seq!['H']
}

/// The sequence that moves the cursor `n` cells to the left.
pub open spec fn left_text(n: u16) -> Seq<char> {
    csi() + decimal(n as nat) + seq!['D']
}

/// The sequence that moves the cursor `n` cells up.
pub open spec fn up_text(n: u16) -> Seq<char> {
    csi() + decimal(n as nat) + seq!['A']
}

/// The sequence that moves the cursor `n` cells down.
pub open spec fn down_text(n: u16) -> Seq<char> {
    csi() + decimal(n as nat) + seq!['B']
}

/// The sequence that clears the whole screen.
pub open spec fn clear_all_text() -> Seq<char> {
    csi() + seq!['2', 'J']
}

/// The sequence that clears the line the cursor is on.
pub open spec fn clear_line_text() -> Seq<char> {
    csi() + seq!['2', 'K']
}

/// The sequence that hides the terminal's own cursor.
pub open spec fn hide_cursor_text() -> Seq<char> {
    csi() + seq!['?', '2', '5', 'l']
}

/// The sequence that shows the terminal's own cursor.
pub open spec fn show_cursor_text() -> Seq<char> {
    csi() + seq!['?', '2', '5', 'h']
}

/// Converts `termion::cursor::Goto` into a `String`. Trusted: the result is
/// the introducer, the row and the column in decimal separated by `;`, and `H`.
#[verifier::external_body]
pub(crate) fn goto(column: u16, row: u16) -> (out: String)
    ensures
        out@ == goto_text(column, row),
{
    String::from(termion::cursor::Goto(column, row))
}

/// Formats `termion::cursor::Left`. Trusted: the result is the introducer,
/// the count in decimal, and `D`.
#[verifier::external_body]
pub(crate) fn left(n: u16) -> (out: String)
    ensures
        out@ == left_text(n),
{
    format!("{}", termion::cursor::Left(n))
}

/// Formats `termion::cursor::Up`. Trusted: the result is the introducer, the
/// count in decimal, and `A`.
#[verifier::external_body]
pub(crate) fn up(n: u16) -> (out: String)
    ensures
        out@ == up_text(n),
{
    format!("{}", termion::cursor::Up(n))
}

/// Formats `termion::cursor::Down`. Trusted: the result is the introducer,
/// the count in decimal, and `B`.
#[verifier::external_body]
pub(crate) fn down(n: u16) -> (out: String)
    ensures
        out@ == down_text(n),
{
    format!("{}", termion::cursor::Down(n))
}

/// Formats `termion::clear::All`. Trusted: the result is the introducer and `2J`.
#[verifier::external_body]
pub(crate) fn clear_all() -> (out: String)
    ensures
        out@ == clear_all_text(),
{
    format!("{}", termion::clear::All)
}

/// Formats `termion::clear::CurrentLine`. Trusted: the result is the
/// introducer and `2K`.
#[verifier::external_body]
pub(crate) fn clear_line() -> (out: String)
    ensures
        out@ == clear_line_text(),
{
    format!("{}", termion::clear::CurrentLine)
}

/// Formats `termion::cursor::Hide`. Trusted: the result is the introducer
/// and `?25l`.
#[verifier::external_body]
pub(crate) fn hide_cursor() -> (out: String)
    ensures
        out@ == hide_cursor_text(),
{
    format!("{}", termion::cursor::Hide)
}

/// Formats `termion::cursor::Show`. Trusted: the result is the introducer
/// and `?25h`.
#[verifier::external_body]
pub(crate) fn show_cursor() -> (out: String)
    ensures
        out@ == show_cursor_text(),
{
    format!("{}", termion::cursor::Show)
}

} // verus!
