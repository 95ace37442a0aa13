//! Decoded input events, the size of the terminal, and the command that an
//! event stands for.

use vstd::prelude::*;
use crate::canvas::Position;

verus! {

/// A button of the mouse.
#[derive(Clone, Copy, Debug, PartialEq, Eq)]
pub enum MouseButton {
    Left,
    Right,
    Middle,
    WheelUp,
    WheelDown,
    WheelLeft,
    WheelRight,
}

/// A key of the keyboard. Keys the canvas has no use for are `Other`.
#[derive(Clone, Copy, Debug, PartialEq, Eq)]
pub enum Key {
    Char(char),
    Ctrl(char),
    Esc,
    Left,
    Right,
    Up,
    Down,
    Other,
}

/// What the mouse did, with the column and the row where it did it.
#[derive(Clone, Copy, Debug, PartialEq, Eq)]
pub enum MouseEvent {
    Press(MouseButton, u16, u16),
    Hold(u16, u16),
    Release(u16, u16),
}

/// An input event as the terminal backend decoded it.
#[derive(Clone, Copy, Debug, PartialEq, Eq)]
pub enum Event {
    Key(Key),
    Mouse(MouseEvent),
    Unsupported,
}

/// The size of the terminal in columns and rows.
#[derive(Clone, Copy, Debug, PartialEq, Eq)]
pub struct TerminalSize {
    pub columns: u16,
    pub rows: u16,
}

/// What an event asks of the canvas.
#[derive(Clone, Copy, Debug, PartialEq, Eq)]
pub enum Command {
    /// End the event loop.
    Quit,
    /// Flip the drawing mode.
    ToggleDrawing,
    /// Wipe the screen and hide the terminal's cursor; the cells stay.
    Reload,
    /// Drop every cell, wipe the screen, put the cursor in the centre.
    Clear,
    /// Make the next colour active and redraw the cursor in it.
    NextColor,
    /// Move the cursor one cell.
    MoveLeft,
    MoveRight,
    MoveDown,
    MoveUp,
    /// Put the cursor at a column and row; nothing is painted for this event.
    Jump(u16, u16),
    /// Do nothing, and paint nothing for this event.
    Suspend,
    /// Do nothing.
    Ignore,
}

/// Whether a mouse event at `column` and `row` may move the cursor there:
/// not if it lies in the last column or in the last row.
pub open spec fn may_jump(column: u16, row: u16, size: TerminalSize) -> bool {
    row != size.rows && column != size.columns
}

/// The command a key stands for wherever the cursor is. The left, right and
/// down arrows are not such keys: see `key_command`.
pub open spec fn plain_key_command(key: Key) -> Command {
    match key {
        Key::Char(c) => if c == 'q' {
            Command::Quit
        } else if c == 'd' {
            Command::ToggleDrawing
        } else if c == 'r' {
            Command::Reload
        } else if c == 'c' {
            Command::Clear
        } else if c == 'n' {
            Command::NextColor
        } else {
            Command::Ignore
        },
        Key::Ctrl(c) => if c == 'c' {
            Command::Quit
        } else {
            Command::Ignore
        },
        Key::Esc => Command::Quit,
        Key::Up => Command::MoveUp,
        _ => Command::Ignore,
    }
}

/// The command a key stands for while the cursor is at `cursor`.
pub open spec fn key_command(key: Key, size: TerminalSize, cursor: (u16, u16)) -> Command {
    match key {
        Key::Left => if cursor.0 > 1 {
            Command::MoveLeft
        } else {
            Command::Ignore
        },
        Key::Right => if cursor.0 < size.columns - 1 {
            Command::MoveRight
        } else {
            Command::Ignore
        },
        Key::Down => if cursor.1 < size.rows - 1 {
            Command::MoveDown
        } else {
            Command::Ignore
        },
        _ => plain_key_command(key),
    }
}

/// Whether the command an event stands for depends on where the cursor is:
/// so it is for the left, right and down arrows, which stop at an edge.
pub open spec fn reads_cursor(event: Event) -> bool {
    event == Event::Key(Key::Left) || event == Event::Key(Key::Right) || event == Event::Key(
        Key::Down,
    )
}

/// The command a mouse event stands for.
pub open spec fn mouse_command(mouse: MouseEvent, size: TerminalSize) -> Command {
    match mouse {
        MouseEvent::Hold(column, row) => if may_jump(column, row, size) {
            Command::Jump(column, row)
        } else {
            Command::Ignore
        },
        MouseEvent::Press(button, column, row) => if may_jump(column, row, size)
            && button == MouseButton::Left {
            Command::Jump(column, row)
        } else {
            Command::Ignore
        },
        MouseEvent::Release(_, _) => Command::Suspend,
    }
}

/// The command an event stands for.
pub open spec fn command_of(event: Event, size: TerminalSize, cursor: (u16, u16)) -> Command {
    match event {
        Event::Key(key) => key_command(key, size, cursor),
        Event::Mouse(mouse) => mouse_command(mouse, size),
        Event::Unsupported => Command::Ignore,
    }
}

impl Command {
    /// Whether the command ends the event loop.
    pub open spec fn spec_quits(self) -> bool {
        self == Command::Quit
    }

    /// Whether nothing is painted for the event that gave the command, even
    /// in drawing mode.
    pub open spec fn spec_suspends(self) -> bool {
        self is Jump || self is Suspend
    }

    /// Whether the command ends the event loop.
    #[verifier::when_used_as_spec(spec_quits)]
    pub fn quits(self) -> (quits: bool)
        ensures
            quits == self.spec_quits(),
    {
        match self {
            Command::Quit => true,
            _ => false,
        }
    }

    /// Whether nothing is painted for the event that gave the command, even
    /// in drawing mode.
    #[verifier::when_used_as_spec(spec_suspends)]
    pub fn suspends(self) -> (suspends: bool)
        ensures
            suspends == self.spec_suspends(),
    {
        match self {
            Command::Jump(_, _) => true,
            Command::Suspend => true,
            _ => false,
        }
    }
}

/// Maps an event to the command it stands for. `cursor` is where the cursor
/// is when the event arrives.
pub fn route(event: Event, size: TerminalSize, cursor: Position) -> (command: Command)
    ensures
        command == command_of(event, size, cursor@),
{
    match event {
        Event::Key(key) => route_key(key, size, cursor),
        Event::Mouse(mouse) => route_mouse(mouse, size),
        Event::Unsupported => Command::Ignore,
    }
}

/// Maps an event to the command it stands for without knowing where the
/// cursor is, where that can be done: for every event but the left, right
/// and down arrows.
pub fn route_without_cursor(event: Event, size: TerminalSize) -> (command: Option<Command>)
    ensures
        command.is_none() <==> reads_cursor(event),
        command matches Some(c) ==> forall|cursor: (u16, u16)|
            c == #[trigger] command_of(event, size, cursor),
{
    match event {
        Event::Key(key) => match key {
            Key::Left => None,
            Key::Right => None,
            Key::Down => None,
            _ => Some(route_plain_key(key)),
        },
        Event::Mouse(mouse) => Some(route_mouse(mouse, size)),
        Event::Unsupported => Some(Command::Ignore),
    }
}

/// Maps a key other than the left, right and down arrows to the command it
/// stands for; those three give `Ignore` here.
pub fn route_plain_key(key: Key) -> (command: Command)
    ensures
        command == plain_key_command(key),
{
    match key {
        Key::Char(c) => {
            if c == 'q' {
                Command::Quit
            } else if c == 'd' {
                Command::ToggleDrawing
            } else if c == 'r' {
                Command::Reload
            } else if c == 'c' {
                Command::Clear
            } else if c == 'n' {
                Command::NextColor
            } else {
                Command::Ignore
            }
        },
        Key::Ctrl(c) => {
            if c == 'c' {
                Command::Quit
            } else {
                Command::Ignore
            }
        },
        Key::Esc => Command::Quit,
        Key::Up => Command::MoveUp,
        _ => Command::Ignore,
    }
}

/// Maps a key to the command it stands for.
pub fn route_key(key: Key, size: TerminalSize, cursor: Position) -> (command: Command)
    ensures
        command == key_command(key, size, cursor@),
{
    match key {
        Key::Left => {
            if cursor.column() > 1 {
                Command::MoveLeft
            } else {
                Command::Ignore
            }
        },
        Key::Right => {
            if size.columns >= 1 && cursor.column() < size.columns - 1 {
                Command::MoveRight
            } else {
                Command::Ignore
            }
        },
        Key::Down => {
            if size.rows >= 1 && cursor.row() < size.rows - 1 {
                Command::MoveDown
            } else {
                Command::Ignore
            }
        },
        _ => route_plain_key(key),
    }
}

/// Maps a mouse event to the command it stands for.
pub fn route_mouse(mouse: MouseEvent, size: TerminalSize) -> (command: Command)
    ensures
        command == mouse_command(mouse, size),
{
    match mouse {
        MouseEvent::Hold(column, row) => {
            if row != size.rows && column != size.columns {
                Command::Jump(column, row)
            } else {
                Command::Ignore
            }
        },
        MouseEvent::Press(button, column, row) => {
            let left = match button {
                MouseButton::Left => true,
                _ => false,
            };
            if row != size.rows && column != size.columns && left {
                Command::Jump(column, row)
            } else {
                Command::Ignore
            }
        },
        MouseEvent::Release(_, _) => Command::Suspend,
    }
}

} // verus!
