//! The frames written to the terminal: the status bar on the bottom line and
//! the repaint of every painted cell. Both leave the cursor where it was.

use vstd::prelude::*;
use vstd::string::StringExecFns;
use vstd::string::StrSliceExecFns;
use crate::canvas::{CanvasState, CellView, Position};
use crate::escape::{
    clear_all, clear_all_text, clear_line, clear_line_text, down_text, goto, goto_text,
    hide_cursor, hide_cursor_text, left, left_text, show_cursor, show_cursor_text, up_text,
};
use crate::event::{Command, TerminalSize};
use crate::palette::RESET;

verus! {

/// The code that colours the text of the status bar.
pub const STATUS_FOREGROUND: &'static str = "\x1b[97m";

/// The code that colours the ground of the status bar.
pub const STATUS_BACKGROUND: &'static str = "\x1b[45m";

/// The command legend that follows the mode on the status bar.
pub const LEGEND: &'static str = " - [d]raw - [q]uit - [c]lear - [n]ext_color - [r]eload";

/// `n` blanks.
pub open spec fn spaces(n: nat) -> Seq<char> {
    Seq::new(n, |i: int| ' ')
}

/// The label of the status bar: the mode, then the legend.
pub open spec fn status_label(drawing: bool) -> Seq<char> {
    (if drawing {
        " Drawing"@
    } else {
        " Not drawing"@
    }) + LEGEND@
}

/// Whether a terminal of `columns` columns is too narrow for a label.
pub open spec fn is_narrow(columns: u16, label_len: nat) -> bool {
    columns < label_len
}

/// How many blanks follow a label: what is left of the width, or of twice
/// the width on a narrow terminal, and none where even that is too little.
pub open spec fn status_padding(columns: u16, label_len: nat) -> nat {
    let width = if is_narrow(columns, label_len) {
        2 * columns
    } else {
        columns as int
    };
    if width >= label_len {
        (width - label_len) as nat
    } else {
        0
    }
}

/// The status bar: its colours, the label, the padding, the reset.
pub open spec fn status_bar_text(drawing: bool, columns: u16) -> Seq<char> {
    STATUS_FOREGROUND@ + STATUS_BACKGROUND@ + status_label(drawing) + spaces(
        status_padding(columns, status_label(drawing).len()),
    ) + RESET@
}

/// The frame that redraws the status bar: go to the start of the last row,
/// whatever the width, clear that line, write the bar, put the cursor back.
pub open spec fn status_frame_text(drawing: bool, size: TerminalSize, cursor: (u16, u16)) -> Seq<
    char,
> {
    goto_text(1, size.rows) + clear_line_text() + status_bar_text(drawing, size.columns)
        + goto_text(cursor.0, cursor.1)
}

/// What repaints one cell: go there, its colour, a blank, the reset.
pub open spec fn cell_text(cell: CellView) -> Seq<char> {
    goto_text(cell.column, cell.row) + cell.color + seq![' '] + RESET@
}

/// What repaints the cells in the order they were painted, but for those
/// under the cursor.
pub open spec fn cells_text(cells: Seq<CellView>, cursor: (u16, u16)) -> Seq<char>
    decreases cells.len(),
{
    if cells.len() == 0 {
        Seq::empty()
    } else {
        let last = cells.last();
        cells_text(cells.drop_last(), cursor) + (if last.column == cursor.0 && last.row
            == cursor.1 {
            Seq::empty()
        } else {
            cell_text(last)
        })
    }
}

/// The frame that repaints the canvas and puts the cursor back.
pub open spec fn canvas_frame_text(cells: Seq<CellView>, cursor: (u16, u16)) -> Seq<char> {
    cells_text(cells, cursor) + goto_text(cursor.0, cursor.1)
}

/// The label of the status bar.
pub fn label(drawing: bool) -> (text: String)
    ensures
        text@ == status_label(drawing),
{
    let mut text = String::from_str(if drawing {
        " Drawing"
    } else {
        " Not drawing"
    });
    text.append(LEGEND);
    text
}

/// Appends `n` blanks to `out`.
pub fn push_spaces(out: &mut String, n: usize)
    ensures
        final(out)@ == old(out)@ + spaces(n as nat),
{
    proof {
        reveal_strlit(" ");
    }
    let mut i: usize = 0;
    assert(out@ =~= old(out)@ + spaces(0));
    while i < n
        invariant
            i <= n,
            " "@ == seq![' '],
            out@ == old(out)@ + spaces(i as nat),
        decreases n - i,
    {
        out.append(" ");
        i = i + 1;
        assert(out@ =~= old(out)@ + spaces(i as nat));
    }
}

/// The status bar for a terminal of `columns` columns.
pub fn status_bar(drawing: bool, columns: u16) -> (bar: String)
    ensures
        bar@ == status_bar_text(drawing, columns),
{
    let text = label(drawing);
    let len: usize = text.as_str().unicode_len();
    let width: usize = if (columns as usize) < len {
        2 * (columns as usize)
    } else {
        columns as usize
    };
    let padding: usize = if width >= len {
        width - len
    } else {
        0
    };
    let mut bar = String::from_str(STATUS_FOREGROUND);
    bar.append(STATUS_BACKGROUND);
    bar.append(text.as_str());
    push_spaces(&mut bar, padding);
    bar.append(RESET);
    bar
}

/// The frame that redraws the status bar on the last row of a terminal of
/// size `size` and puts the cursor back at `cursor`.
pub fn status_frame(drawing: bool, size: TerminalSize, cursor: Position) -> (frame: String)
    ensures
        frame@ == status_frame_text(drawing, size, cursor@),
{
    let mut frame = goto(1, size.rows);
    frame.append(clear_line().as_str());
    frame.append(status_bar(drawing, size.columns).as_str());
    frame.append(goto(cursor.column(), cursor.row()).as_str());
    frame
}

/// The frame that repaints every cell of `state` that is not under the
/// cursor, in the order they were painted, and puts the cursor back.
pub fn canvas_frame(state: &CanvasState, cursor: Position) -> (frame: String)
    ensures
        frame@ == canvas_frame_text(state@.cells, cursor@),
{
    proof {
        reveal_strlit(" ");
    }
    let mut frame = String::new();
    let n: usize = state.len();
    let mut i: usize = 0;
    while i < n
        invariant
            i <= n,
            n == state@.cells.len(),
            " "@ == seq![' '],
            frame@ == cells_text(state@.cells.take(i as int), cursor@),
        decreases n - i,
    {
        if let Some(cell) = state.cell(i) {
            let at = cell.position();
            if at.column() != cursor.column() || at.row() != cursor.row() {
                frame.append(goto(at.column(), at.row()).as_str());
                frame.append(cell.color());
                frame.append(" ");
                frame.append(RESET);
            }
        }
        proof {
            let next = state@.cells.take(i + 1);
            assert(next.drop_last() =~= state@.cells.take(i as int));
            assert(next.last() == state@.cells[i as int]);
        }
        i = i + 1;
    }
    assert(state@.cells.take(n as int) =~= state@.cells);
    frame.append(goto(cursor.column(), cursor.row()).as_str());
    frame
}


/// The text that wipes the screen and hides the terminal's cursor.
pub open spec fn reload_text() -> Seq<char> {
    clear_all_text() + hide_cursor_text()
}

/// The text that wipes the screen and shows the terminal's cursor again.
pub open spec fn leave_text() -> Seq<char> {
    clear_all_text() + show_cursor_text()
}

/// The text that draws the cursor's glyph in the centre of the terminal and
/// steps back onto it.
pub open spec fn center_text(size: TerminalSize, glyph: Seq<char>) -> Seq<char> {
    goto_text(size.columns / 2, size.rows / 2) + glyph + left_text(1)
}

/// The text a command writes at once. `glyph` is the cursor's glyph in the
/// colour that is active once the command has changed the canvas.
pub open spec fn command_text(command: Command, size: TerminalSize, glyph: Seq<char>) -> Seq<
    char,
> {
    match command {
        Command::Reload => reload_text(),
        Command::Clear => clear_all_text() + center_text(size, glyph),
        Command::NextColor => glyph + RESET@ + left_text(1),
        Command::MoveLeft => seq![' '] + left_text(2) + glyph + left_text(1),
        Command::MoveRight => seq![' '] + glyph + left_text(1),
        Command::MoveDown => seq![' '] + left_text(1) + down_text(1) + glyph + left_text(1),
        Command::MoveUp => seq![' '] + left_text(1) + up_text(1) + glyph + left_text(1),
        Command::Jump(column, row) => seq![' '] + goto_text(column, row) + glyph + left_text(1)
            + RESET@,
        Command::Quit | Command::ToggleDrawing | Command::Suspend | Command::Ignore => Seq::empty(),
    }
}

/// The text written when the canvas starts: wipe the screen, hide the
/// terminal's cursor.
pub fn enter_frame() -> (frame: String)
    ensures
        frame@ == reload_text(),
{
    let mut frame = clear_all();
    frame.append(hide_cursor().as_str());
    frame
}

/// The text written when the canvas ends: wipe the screen, show the
/// terminal's cursor.
pub fn leave_frame() -> (frame: String)
    ensures
        frame@ == leave_text(),
{
    let mut frame = clear_all();
    frame.append(show_cursor().as_str());
    frame
}

/// The text that draws `glyph` in the centre of a terminal of size `size`.
pub fn center_frame(size: TerminalSize, glyph: &str) -> (frame: String)
    ensures
        frame@ == center_text(size, glyph@),
{
    let mut frame = goto(size.columns / 2, size.rows / 2);
    frame.append(glyph);
    frame.append(left(1).as_str());
    frame
}

} // verus!
