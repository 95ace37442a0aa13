//! The canvas: the painted cells in the order they were painted, the drawing
//! mode, and the active colour.

use vstd::prelude::*;
use vstd::string::StringExecFns;
use crate::escape::{clear_all, down, goto, left, up};
use crate::event::{command_of, Command, Event, TerminalSize};
use crate::palette::{
    background_text, cursor_glyph, foreground_text, glyph_text, next_index, ColorPair, Palette,
    RESET,
};
use crate::render::{center_frame, command_text, enter_frame};

verus! {

/// A cell of the terminal grid. Columns and rows count from one.
#[derive(Clone, Copy, Debug, PartialEq, Eq)]
pub struct Position {
    column: u16,
    row: u16,
}

impl View for Position {
    type V = (u16, u16);

    /// The column and the row.
    closed spec fn view(&self) -> (u16, u16) {
        (self.column, self.row)
    }
}

impl Position {
    #[verifier::type_invariant]
    spec fn one_based(self) -> bool {
        self.column >= 1 && self.row >= 1
    }

    /// The cell at `column` and `row`, if both count from one.
    pub fn new(column: u16, row: u16) -> (position: Option<Position>)
        ensures
            position.is_some() <==> column >= 1 && row >= 1,
            position matches Some(p) ==> p@ == (column, row),
    {
        if column >= 1 && row >= 1 {
            Some(Position { column, row })
        } else {
            None
        }
    }

    /// The column, at least one.
    pub fn column(&self) -> (column: u16)
        ensures
            column == self@.0,
            column >= 1,
    {
        proof {
            use_type_invariant(self);
        }
        self.column
    }

    /// The row, at least one.
    pub fn row(&self) -> (row: u16)
        ensures
            row == self@.1,
            row >= 1,
    {
        proof {
            use_type_invariant(self);
        }
        self.row
    }
}

/// What a painted cell is: where it lies and the code it is painted with.
pub struct CellView {
    pub column: u16,
    pub row: u16,
    pub color: Seq<char>,
}

/// A cell that was painted. It never changes once made.
#[derive(Clone, Copy, Debug, PartialEq, Eq)]
pub struct PaintedCell {
    position: Position,
    color: &'static str,
}

impl View for PaintedCell {
    type V = CellView;

    closed spec fn view(&self) -> CellView {
        CellView { column: self.position@.0, row: self.position@.1, color: self.color@ }
    }
}

impl PaintedCell {
    /// A cell at `position` painted with the code `color`.
    pub fn new(position: Position, color: &'static str) -> (cell: PaintedCell)
        ensures
            cell@ == (CellView { column: position@.0, row: position@.1, color: color@ }),
    {
        PaintedCell { position, color }
    }

    /// Where the cell lies.
    pub fn position(&self) -> (position: Position)
        ensures
            position@ == (self@.column, self@.row),
    {
        self.position
    }

    /// The code the cell is painted with.
    pub fn color(&self) -> (color: &'static str)
        ensures
            color@ == self@.color,
    {
        self.color
    }
}

/// What a canvas is: its cells in painting order, its mode, its colour.
pub struct CanvasView {
    pub cells: Seq<CellView>,
    pub drawing: bool,
    pub color_index: int,
}

impl CanvasView {
    /// Whether the colour index lies in the palette and every cell counts
    /// its column and row from one.
    pub open spec fn wf(self) -> bool {
        &&& 0 <= self.color_index < 6
        &&& forall|i: int|
            0 <= i < self.cells.len() ==> (#[trigger] self.cells[i]).column >= 1
                && self.cells[i].row >= 1
    }

    /// The canvas after a cell is painted at a position with a code.
    pub open spec fn painted(self, position: (u16, u16), color: Seq<char>) -> CanvasView {
        CanvasView {
            cells: self.cells.push(CellView { column: position.0, row: position.1, color }),
            ..self
        }
    }

    /// The canvas after it is cleared: no cells, not drawing, same colour.
    pub open spec fn cleared(self) -> CanvasView {
        CanvasView { cells: Seq::empty(), drawing: false, ..self }
    }

    /// The canvas after the drawing mode is flipped.
    pub open spec fn toggled(self) -> CanvasView {
        CanvasView { drawing: !self.drawing, ..self }
    }

    /// The canvas after the next colour of the cycle becomes active.
    pub open spec fn advanced(self) -> CanvasView {
        CanvasView { color_index: next_index(self.color_index), ..self }
    }

    /// The canvas after a command has changed it.
    pub open spec fn performed(self, command: Command) -> CanvasView {
        match command {
            Command::ToggleDrawing => self.toggled(),
            Command::Clear => self.cleared(),
            Command::NextColor => self.advanced(),
            _ => self,
        }
    }

    /// Whether an event ends with a cell painted: in drawing mode, unless
    /// painting is suspended for this event.
    pub open spec fn will_paint(self, suspended: bool) -> bool {
        self.drawing && !suspended
    }

    /// The canvas once the cursor has come to rest at `cursor` after an
    /// event: where the event ends with a cell painted, that cell is painted
    /// in the active foreground colour.
    pub open spec fn settled(self, suspended: bool, cursor: (u16, u16)) -> CanvasView {
        if self.will_paint(suspended) {
            self.painted(cursor, foreground_text(self.color_index))
        } else {
            self
        }
    }

    /// The canvas after a whole event: the command it stands for with the
    /// cursor at `before` is carried out, and the cursor comes to rest at
    /// `rest`. An event that ends the loop changes nothing.
    pub open spec fn after_event(
        self,
        event: Event,
        size: TerminalSize,
        before: (u16, u16),
        rest: (u16, u16),
    ) -> CanvasView {
        let command = command_of(event, size, before);
        if command.spec_quits() {
            self
        } else {
            self.performed(command).settled(command.spec_suspends(), rest)
        }
    }

    /// The canvas after each stroke of `strokes`, a position and a colour
    /// code, is painted in turn.
    pub open spec fn painted_all(self, strokes: Seq<((u16, u16), Seq<char>)>) -> CanvasView
        decreases strokes.len(),
    {
        if strokes.len() == 0 {
            self
        } else {
            self.painted_all(strokes.drop_last()).painted(strokes.last().0, strokes.last().1)
        }
    }

    /// The cursor's glyph in the active colour.
    pub open spec fn glyph(self) -> Seq<char> {
        glyph_text(background_text(self.color_index))
    }
}

/// The state of the canvas, owned by whoever runs the event loop.
pub struct CanvasState {
    matrix: Vec<PaintedCell>,
    drawing: bool,
    palette: Palette,
}

impl View for CanvasState {
    type V = CanvasView;

    closed spec fn view(&self) -> CanvasView {
        CanvasView {
            cells: self.matrix@.map_values(|cell: PaintedCell| cell@),
            drawing: self.drawing,
            color_index: self.palette.spec_index(),
        }
    }
}

impl CanvasState {
    #[verifier::type_invariant]
    spec fn well_formed(self) -> bool {
        &&& self.palette.wf()
        &&& forall|i: int|
            0 <= i < self.matrix@.len() ==> (#[trigger] self.matrix@[i]).position.column >= 1
                && self.matrix@[i].position.row >= 1
    }

    /// An empty canvas, not drawing, with the first colour active.
    pub fn new() -> (state: CanvasState)
        ensures
            state@ == (CanvasView { cells: Seq::empty(), drawing: false, color_index: 0 }),
            state@.wf(),
    {
        let matrix: Vec<PaintedCell> = Vec::new();
        assert(matrix@.map_values(|cell: PaintedCell| cell@) =~= Seq::empty());
        CanvasState { matrix, drawing: false, palette: Palette::new() }
    }

    /// Appends a cell at `position` painted with `color`. Nothing is merged:
    /// a cell painted twice is held twice.
    pub fn paint(&mut self, position: Position, color: &'static str)
        ensures
            final(self)@ == old(self)@.painted(position@, color@),
            final(self)@.wf(),
    {
        proof {
            use_type_invariant(&*self);
            use_type_invariant(&position);
        }
        let cell = PaintedCell::new(position, color);
        // The cells are moved out, extended and put back, so that the canvas
        // is whole at every step.
        let empty: Vec<PaintedCell> = Vec::new();
        assert(empty@.map_values(|c: PaintedCell| c@) =~= Seq::empty());
        let mut taken = CanvasState { matrix: empty, drawing: self.drawing, palette: self.palette };
        core::mem::swap(self, &mut taken);
        let mut matrix = taken.matrix;
        matrix.push(cell);
        assert(matrix@.map_values(|c: PaintedCell| c@) =~= old(self).matrix@.map_values(
            |c: PaintedCell| c@,
        ).push(cell@));
        *self = CanvasState { matrix, drawing: taken.drawing, palette: taken.palette };
    }

    /// Removes every cell and leaves the drawing mode.
    pub fn clear(&mut self)
        ensures
            final(self)@ == old(self)@.cleared(),
            final(self)@.cells.len() == 0,
            !final(self)@.drawing,
            final(self)@.wf(),
    {
        proof {
            use_type_invariant(&*self);
        }
        let matrix: Vec<PaintedCell> = Vec::new();
        assert(matrix@.map_values(|c: PaintedCell| c@) =~= Seq::empty());
        *self = CanvasState { matrix, drawing: false, palette: self.palette };
    }

    /// Flips the drawing mode.
    pub fn toggle_drawing(&mut self)
        ensures
            final(self)@ == old(self)@.toggled(),
            final(self)@.wf(),
    {
        proof {
            use_type_invariant(&*self);
        }
        self.drawing = !self.drawing;
    }

    /// Makes the next colour of the cycle active and returns its pair.
    pub fn advance_color(&mut self) -> (pair: ColorPair)
        ensures
            final(self)@ == old(self)@.advanced(),
            pair.foreground@ == foreground_text(final(self)@.color_index),
            pair.background@ == background_text(final(self)@.color_index),
            final(self)@.wf(),
    {
        proof {
            use_type_invariant(&*self);
        }
        let mut palette = self.palette;
        let pair = palette.advance();
        self.palette = palette;
        pair
    }

    /// Whether the drawing mode is on.
    pub fn is_drawing(&self) -> (drawing: bool)
        ensures
            drawing == self@.drawing,
    {
        self.drawing
    }

    /// The index of the active colour pair.
    pub fn color_index(&self) -> (index: usize)
        ensures
            index == self@.color_index,
            index < 6,
    {
        self.palette.index()
    }

    /// The active colour pair.
    pub fn active_pair(&self) -> (pair: ColorPair)
        ensures
            pair.foreground@ == foreground_text(self@.color_index),
            pair.background@ == background_text(self@.color_index),
    {
        self.palette.current()
    }

    /// How many cells were painted since the canvas was last cleared.
    pub fn len(&self) -> (len: usize)
        ensures
            len == self@.cells.len(),
    {
        self.matrix.len()
    }

    /// The cell that was painted as the `index`-th, counting from zero.
    pub fn cell(&self, index: usize) -> (cell: Option<PaintedCell>)
        ensures
            cell.is_some() <==> index < self@.cells.len(),
            cell matches Some(c) ==> c@ == self@.cells[index as int],
    {
        if index < self.matrix.len() {
            Some(self.matrix[index])
        } else {
            None
        }
    }

    /// The cursor's glyph in the active colour.
    pub fn glyph(&self) -> (glyph: String)
        ensures
            glyph@ == self@.glyph(),
    {
        cursor_glyph(self.active_pair())
    }

    /// Carries out `command` on a terminal of size `size`: changes the canvas
    /// and returns the text to write at once.
    pub fn perform(&mut self, command: Command, size: TerminalSize) -> (out: String)
        ensures
            final(self)@ == old(self)@.performed(command),
            final(self)@.wf(),
            out@ == command_text(command, size, final(self)@.glyph()),
    {
        proof {
            reveal_strlit(" ");
            use_type_invariant(&*self);
        }
        match command {
            Command::ToggleDrawing => {
                self.toggle_drawing();
                String::new()
            },
            Command::Reload => enter_frame(),
            Command::Clear => {
                self.clear();
                let mut out = clear_all();
                out.append(center_frame(size, self.glyph().as_str()).as_str());
                out
            },
            Command::NextColor => {
                let pair = self.advance_color();
                let mut out = cursor_glyph(pair);
                out.append(RESET);
                out.append(left(1).as_str());
                out
            },
            Command::MoveLeft => {
                let mut out = String::from_str(" ");
                out.append(left(2).as_str());
                out.append(self.glyph().as_str());
                out.append(left(1).as_str());
                out
            },
            Command::MoveRight => {
                let mut out = String::from_str(" ");
                out.append(self.glyph().as_str());
                out.append(left(1).as_str());
                out
            },
            Command::MoveDown => {
                let mut out = String::from_str(" ");
                out.append(left(1).as_str());
                out.append(down(1).as_str());
                out.append(self.glyph().as_str());
                out.append(left(1).as_str());
                out
            },
            Command::MoveUp => {
                let mut out = String::from_str(" ");
                out.append(left(1).as_str());
                out.append(up(1).as_str());
                out.append(self.glyph().as_str());
                out.append(left(1).as_str());
                out
            },
            Command::Jump(column, row) => {
                let mut out = String::from_str(" ");
                out.append(goto(column, row).as_str());
                out.append(self.glyph().as_str());
                out.append(left(1).as_str());
                out.append(RESET);
                out
            },
            _ => String::new(),
        }
    }

    /// Whether `settle` will paint a cell after `command`. Where it will not,
    /// nobody need ask the terminal where the cursor came to rest.
    pub fn paints(&self, command: Command) -> (paints: bool)
        ensures
            paints == self@.will_paint(command.spec_suspends()),
    {
        self.drawing && !command.suspends()
    }

    /// Ends an event once the cursor has come to rest at `cursor`: in drawing
    /// mode, unless `command` suspends painting, paints that cell in the
    /// active foreground colour.
    pub fn settle(&mut self, command: Command, cursor: Position)
        ensures
            final(self)@ == old(self)@.settled(command.spec_suspends(), cursor@),
            final(self)@.wf(),
    {
        proof {
            use_type_invariant(&*self);
        }
        if self.paints(command) {
            let color = self.active_pair().foreground;
            self.paint(cursor, color);
        }
    }
}

} // verus!
