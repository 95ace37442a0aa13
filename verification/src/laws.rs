//! What holds of the canvas whatever its state and whatever the event.

use vstd::prelude::*;
use crate::canvas::{CanvasView, CellView};
use crate::event::{command_of, reads_cursor, Command, Event, Key, MouseEvent, TerminalSize};
use crate::palette::{background_text, foreground_text, next_index};
use crate::render::command_text;

verus! {

/// The canvas after the next colour is made active `n` times.
pub open spec fn advanced_times(view: CanvasView, n: nat) -> CanvasView
    decreases n,
{
    if n == 0 {
        view
    } else {
        advanced_times(view, (n - 1) as nat).advanced()
    }
}

/// The cell that a stroke, a position and a colour code, paints.
pub open spec fn stroke_cell(stroke: ((u16, u16), Seq<char>)) -> CellView {
    CellView { column: stroke.0.0, row: stroke.0.1, color: stroke.1 }
}

/// Making the next colour active six times brings back the colour pair that
/// was active, and however often it is done the cells and the drawing mode
/// stay as they are.
pub proof fn advancing_cycles(view: CanvasView, n: nat)
    requires
        view.wf(),
    ensures
        advanced_times(view, 6) == view,
        foreground_text(advanced_times(view, 6).color_index) == foreground_text(
            view.color_index,
        ),
        background_text(advanced_times(view, 6).color_index) == background_text(
            view.color_index,
        ),
        advanced_times(view, n).cells == view.cells,
        advanced_times(view, n).drawing == view.drawing,
        advanced_times(view, n).wf(),
    decreases n,
{
    reveal_with_fuel(advanced_times, 7);
    if n > 0 {
        advancing_cycles(view, (n - 1) as nat);
    }
}

/// Clearing leaves no cell and leaves the drawing mode, whatever the canvas
/// held before.
pub proof fn clearing_empties(view: CanvasView)
    ensures
        view.cleared().cells.len() == 0,
        !view.cleared().drawing,
        view.cleared().color_index == view.color_index,
{
}

/// Painting a sequence of strokes appends exactly one cell for each, in the
/// order of the strokes; nothing is merged, dropped or moved.
pub proof fn painting_accumulates(view: CanvasView, strokes: Seq<((u16, u16), Seq<char>)>)
    ensures
        view.painted_all(strokes).cells == view.cells + strokes.map_values(
            |stroke: ((u16, u16), Seq<char>)| stroke_cell(stroke),
        ),
        view.painted_all(strokes).cells.len() == view.cells.len() + strokes.len(),
        view.painted_all(strokes).drawing == view.drawing,
        view.painted_all(strokes).color_index == view.color_index,
    decreases strokes.len(),
{
    let cells = |stroke: ((u16, u16), Seq<char>)| stroke_cell(stroke);
    if strokes.len() == 0 {
        assert(view.cells =~= view.cells + strokes.map_values(cells));
    } else {
        painting_accumulates(view, strokes.drop_last());
        assert(strokes.map_values(cells) =~= strokes.drop_last().map_values(cells).push(
            stroke_cell(strokes.last()),
        ));
        assert(view.painted_all(strokes).cells =~= view.cells + strokes.map_values(cells));
    }
}

/// While the drawing mode is off, no event but the key `d` adds a cell: the
/// key `c` leaves none, and every other event leaves the cells as they are.
pub proof fn no_painting_outside_drawing_mode(
    view: CanvasView,
    event: Event,
    size: TerminalSize,
    before: (u16, u16),
    rest: (u16, u16),
)
    requires
        !view.drawing,
        event != Event::Key(Key::Char('d')),
    ensures
        event == Event::Key(Key::Char('c')) ==> view.after_event(
            event,
            size,
            before,
            rest,
        ).cells.len() == 0,
        event != Event::Key(Key::Char('c')) ==> view.after_event(
            event,
            size,
            before,
            rest,
        ).cells == view.cells,
        !view.after_event(event, size, before, rest).drawing,
{
}

/// The release of a mouse button changes nothing, in drawing mode or out of
/// it, wherever the button was released and wherever the cursor rests.
pub proof fn release_never_paints(
    view: CanvasView,
    column: u16,
    row: u16,
    size: TerminalSize,
    before: (u16, u16),
    rest: (u16, u16),
)
    ensures
        view.after_event(Event::Mouse(MouseEvent::Release(column, row)), size, before, rest)
            == view,
{
}

/// An event that suspends painting, a jump of the cursor to the mouse or
/// the release of a button, never adds a cell.
pub proof fn suspended_events_never_paint(
    view: CanvasView,
    event: Event,
    size: TerminalSize,
    before: (u16, u16),
    rest: (u16, u16),
)
    requires
        command_of(event, size, before).spec_suspends(),
    ensures
        view.after_event(event, size, before, rest) == view,
{
}

/// Where an event ends without a cell painted, the canvas after it does not
/// depend on where the cursor came to rest.
pub proof fn resting_place_matters_only_when_painting(
    view: CanvasView,
    suspended: bool,
    rest: (u16, u16),
    other: (u16, u16),
)
    requires
        !view.will_paint(suspended),
    ensures
        view.settled(suspended, rest) == view,
        view.settled(suspended, rest) == view.settled(suspended, other),
{
}

/// The command of an event other than the left, right and down arrows is
/// the same wherever the cursor is.
pub proof fn cursor_matters_only_to_guarded_arrows(
    event: Event,
    size: TerminalSize,
    cursor: (u16, u16),
    other: (u16, u16),
)
    requires
        !reads_cursor(event),
    ensures
        command_of(event, size, cursor) == command_of(event, size, other),
{
}

/// With the cursor in the column before the last, the right arrow does
/// nothing: no text is written, so the cursor stays, and the canvas is
/// unchanged. The same holds in every column further right.
pub proof fn right_arrow_stops_at_edge(
    view: CanvasView,
    size: TerminalSize,
    cursor: (u16, u16),
    glyph: Seq<char>,
)
    requires
        cursor.0 >= size.columns - 1,
    ensures
        command_of(Event::Key(Key::Right), size, cursor) == Command::Ignore,
        command_text(Command::Ignore, size, glyph) == Seq::<char>::empty(),
        view.performed(Command::Ignore) == view,
{
}

/// With the cursor in the row before the last, which is kept for the
/// status bar, or below it, the down arrow does nothing.
pub proof fn down_arrow_stops_above_status_bar(size: TerminalSize, cursor: (u16, u16))
    requires
        cursor.1 >= size.rows - 1,
    ensures
        command_of(Event::Key(Key::Down), size, cursor) == Command::Ignore,
{
}

/// In drawing mode an event that neither ends the loop, nor clears, nor
/// toggles the mode, nor suspends painting adds exactly the cell where the
/// cursor rests, in the foreground colour that is active after the event.
pub proof fn drawing_paints_resting_cell(
    view: CanvasView,
    event: Event,
    size: TerminalSize,
    before: (u16, u16),
    rest: (u16, u16),
)
    requires
        view.drawing,
        !(command_of(event, size, before) is Quit),
        !(command_of(event, size, before) is Clear),
        !(command_of(event, size, before) is ToggleDrawing),
        !command_of(event, size, before).spec_suspends(),
    ensures
        ({
            let after = view.after_event(event, size, before, rest);
            &&& after.cells == view.cells.push(
                CellView {
                    column: rest.0,
                    row: rest.1,
                    color: foreground_text(after.color_index),
                },
            )
            &&& after.drawing
            &&& after.color_index == (if command_of(event, size, before) is NextColor {
                next_index(view.color_index)
            } else {
                view.color_index
            })
        }),
{
}

} // verus!
