use term_canvas::canvas::{CanvasState, PaintedCell, Position};
use term_canvas::event::{route, Command, Event, Key, MouseButton, MouseEvent, TerminalSize};
use term_canvas::palette::{color_pair, cursor_glyph, Palette, CURSOR_ICON, PALETTE_SIZE, RESET};

fn at(column: u16, row: u16) -> Position {
    Position::new(column, row).unwrap()
}

fn cells(state: &CanvasState) -> Vec<(u16, u16, &'static str)> {
    (0..state.len())
        .map(|i| {
            let cell = state.cell(i).unwrap();
            (cell.position().column(), cell.position().row(), cell.color())
        })
        .collect()
}

const SIZE: TerminalSize = TerminalSize { columns: 80, rows: 24 };

/// Runs one whole event with the cursor at `before` and resting at `rest`.
fn step(state: &mut CanvasState, event: Event, before: Position, rest: Position) -> Option<String> {
    let command = route(event, SIZE, before);
    if command.quits() {
        return None;
    }
    let out = state.perform(command, SIZE);
    state.settle(command, rest);
    Some(out)
}

#[test]
fn position_counts_from_one() {
    assert!(Position::new(0, 1).is_none());
    assert!(Position::new(1, 0).is_none());
    assert!(Position::new(0, 0).is_none());
    let p = Position::new(1, 1).unwrap();
    assert_eq!((p.column(), p.row()), (1, 1));
    let q = Position::new(65535, 7).unwrap();
    assert_eq!((q.column(), q.row()), (65535, 7));
}

#[test]
fn painted_cell_keeps_what_it_was_made_with() {
    let cell = PaintedCell::new(at(3, 9), "\x1b[42m");
    assert_eq!(cell.position(), at(3, 9));
    assert_eq!(cell.color(), "\x1b[42m");
}

#[test]
fn palette_holds_the_six_pairs() {
    assert_eq!(PALETTE_SIZE, 6);
    let expected = [
        ("\x1b[45m", "\x1b[95m"),
        ("\x1b[44m", "\x1b[94m"),
        ("\x1b[42m", "\x1b[92m"),
        ("\x1b[41m", "\x1b[91m"),
        ("\x1b[43m", "\x1b[93m"),
        ("\x1b[47m", "\x1b[97m"),
    ];
    for (i, (foreground, background)) in expected.iter().enumerate() {
        let pair = color_pair(i);
        assert_eq!(pair.foreground, *foreground);
        assert_eq!(pair.background, *background);
    }
}

#[test]
fn palette_starts_at_the_first_pair() {
    let palette = Palette::new();
    assert_eq!(palette.index(), 0);
    assert_eq!(palette.current(), color_pair(0));
}

#[test]
fn palette_advance_returns_the_new_pair() {
    let mut palette = Palette::new();
    let pair = palette.advance();
    assert_eq!(palette.index(), 1);
    assert_eq!(pair, color_pair(1));
    assert_eq!(palette.current(), pair);
}

#[test]
fn palette_cycles_after_six_advances() {
    let mut palette = Palette::new();
    palette.advance();
    palette.advance();
    let start = palette.current();
    let mut seen = Vec::new();
    for _ in 0..6 {
        seen.push(palette.advance());
    }
    assert_eq!(palette.index(), 2);
    assert_eq!(palette.current(), start);
    assert_eq!(seen[5], start);
    assert_eq!(seen[3], color_pair(0));
}

#[test]
fn cursor_glyph_is_background_icon_reset() {
    assert_eq!(CURSOR_ICON, "⬤");
    assert_eq!(RESET, "\x1b[0m");
    assert_eq!(cursor_glyph(color_pair(0)), "\x1b[95m⬤\x1b[0m");
    assert_eq!(cursor_glyph(color_pair(5)), "\x1b[97m⬤\x1b[0m");
}

#[test]
fn new_canvas_is_empty_and_not_drawing() {
    let state = CanvasState::new();
    assert_eq!(state.len(), 0);
    assert!(!state.is_drawing());
    assert_eq!(state.color_index(), 0);
    assert_eq!(state.active_pair(), color_pair(0));
    assert!(state.cell(0).is_none());
    assert_eq!(state.glyph(), "\x1b[95m⬤\x1b[0m");
}

#[test]
fn paint_appends_in_call_order_without_merging() {
    let mut state = CanvasState::new();
    state.paint(at(2, 3), "\x1b[45m");
    state.paint(at(7, 1), "\x1b[44m");
    state.paint(at(2, 3), "\x1b[45m");
    state.paint(at(2, 3), "\x1b[41m");
    assert_eq!(
        cells(&state),
        vec![
            (2, 3, "\x1b[45m"),
            (7, 1, "\x1b[44m"),
            (2, 3, "\x1b[45m"),
            (2, 3, "\x1b[41m"),
        ]
    );
    assert!(state.cell(4).is_none());
    assert!(!state.is_drawing());
    assert_eq!(state.color_index(), 0);
}

#[test]
fn paint_many_keeps_count_and_order() {
    let mut state = CanvasState::new();
    for i in 0..500u16 {
        state.paint(at(i % 7 + 1, i + 1), "\x1b[43m");
    }
    assert_eq!(state.len(), 500);
    for i in 0..500u16 {
        let cell = state.cell(i as usize).unwrap();
        assert_eq!(cell.position(), at(i % 7 + 1, i + 1));
    }
}

#[test]
fn clear_empties_and_leaves_drawing_mode() {
    let mut state = CanvasState::new();
    state.toggle_drawing();
    state.advance_color();
    state.paint(at(1, 1), "\x1b[44m");
    state.paint(at(2, 2), "\x1b[44m");
    state.clear();
    assert_eq!(state.len(), 0);
    assert!(!state.is_drawing());
    assert_eq!(state.color_index(), 1);
    state.clear();
    assert_eq!(state.len(), 0);
    assert!(!state.is_drawing());
}

#[test]
fn toggle_drawing_flips_only_the_mode() {
    let mut state = CanvasState::new();
    state.paint(at(4, 4), "\x1b[45m");
    state.toggle_drawing();
    assert!(state.is_drawing());
    state.toggle_drawing();
    assert!(!state.is_drawing());
    assert_eq!(cells(&state), vec![(4, 4, "\x1b[45m")]);
    assert_eq!(state.color_index(), 0);
}

#[test]
fn advance_color_leaves_painted_cells_alone() {
    let mut state = CanvasState::new();
    state.paint(at(4, 4), "\x1b[45m");
    for _ in 0..6 {
        state.advance_color();
        assert_eq!(cells(&state), vec![(4, 4, "\x1b[45m")]);
    }
    assert_eq!(state.color_index(), 0);
    assert_eq!(state.active_pair(), color_pair(0));
}

#[test]
fn settle_paints_only_in_drawing_mode() {
    let mut state = CanvasState::new();
    state.settle(Command::MoveUp, at(5, 5));
    assert_eq!(state.len(), 0);
    state.toggle_drawing();
    state.settle(Command::MoveUp, at(5, 5));
    assert_eq!(cells(&state), vec![(5, 5, "\x1b[45m")]);
    state.settle(Command::Ignore, at(5, 5));
    assert_eq!(state.len(), 2);
}

#[test]
fn settle_skips_suspended_commands() {
    let mut state = CanvasState::new();
    state.toggle_drawing();
    state.settle(Command::Suspend, at(5, 5));
    state.settle(Command::Jump(9, 9), at(9, 9));
    assert_eq!(state.len(), 0);
    assert!(state.is_drawing());
}

#[test]
fn nothing_is_painted_while_not_drawing() {
    let events = [
        Event::Key(Key::Char('r')),
        Event::Key(Key::Char('n')),
        Event::Key(Key::Char('x')),
        Event::Key(Key::Ctrl('d')),
        Event::Key(Key::Left),
        Event::Key(Key::Right),
        Event::Key(Key::Up),
        Event::Key(Key::Down),
        Event::Key(Key::Other),
        Event::Mouse(MouseEvent::Hold(3, 3)),
        Event::Mouse(MouseEvent::Press(MouseButton::Left, 3, 3)),
        Event::Mouse(MouseEvent::Press(MouseButton::Right, 3, 3)),
        Event::Mouse(MouseEvent::Release(3, 3)),
        Event::Unsupported,
    ];
    let mut state = CanvasState::new();
    state.paint(at(1, 2), "\x1b[45m");
    for event in events {
        step(&mut state, event, at(10, 10), at(11, 10));
        assert_eq!(cells(&state), vec![(1, 2, "\x1b[45m")]);
        assert!(!state.is_drawing());
    }
}

#[test]
fn release_never_paints_in_drawing_mode() {
    let mut state = CanvasState::new();
    state.toggle_drawing();
    let out = step(&mut state, Event::Mouse(MouseEvent::Release(4, 4)), at(4, 4), at(4, 4));
    assert_eq!(out, Some(String::new()));
    assert_eq!(state.len(), 0);
    assert!(state.is_drawing());
    // The mode itself is untouched: the next plain event paints again.
    step(&mut state, Event::Key(Key::Up), at(4, 4), at(4, 3));
    assert_eq!(cells(&state), vec![(4, 3, "\x1b[45m")]);
}

#[test]
fn mouse_jump_does_not_paint_in_drawing_mode() {
    let mut state = CanvasState::new();
    state.toggle_drawing();
    step(&mut state, Event::Mouse(MouseEvent::Hold(7, 8)), at(4, 4), at(7, 8));
    step(&mut state, Event::Mouse(MouseEvent::Press(MouseButton::Left, 9, 8)), at(7, 8), at(9, 8));
    assert_eq!(state.len(), 0);
}

#[test]
fn mouse_on_the_status_bar_paints_where_the_cursor_is() {
    let mut state = CanvasState::new();
    state.toggle_drawing();
    let out = step(&mut state, Event::Mouse(MouseEvent::Hold(7, 24)), at(4, 4), at(4, 4));
    assert_eq!(out, Some(String::new()));
    assert_eq!(cells(&state), vec![(4, 4, "\x1b[45m")]);
}

#[test]
fn draw_then_move_right_from_the_centre() {
    let centre = at(SIZE.columns / 2, SIZE.rows / 2);
    let mut state = CanvasState::new();
    assert_eq!(state.len(), 0);
    assert!(!state.is_drawing());
    // The key that turns the mode on is itself followed by a paint of the
    // cell under the cursor.
    step(&mut state, Event::Key(Key::Char('d')), centre, centre);
    assert!(state.is_drawing());
    let before = state.len();
    let right = at(centre.column() + 1, centre.row());
    let out = step(&mut state, Event::Key(Key::Right), centre, right);
    assert_eq!(out, Some(String::from(" \x1b[95m⬤\x1b[0m\x1b[1D")));
    assert_eq!(state.len(), before + 1);
    assert_eq!(
        cells(&state),
        vec![(40, 12, color_pair(0).foreground), (41, 12, color_pair(0).foreground)]
    );
}

#[test]
fn three_next_colors_reach_the_fourth_pair() {
    let mut state = CanvasState::new();
    let mut last = None;
    for _ in 0..3 {
        last = step(&mut state, Event::Key(Key::Char('n')), at(40, 12), at(40, 12));
    }
    assert_eq!(state.color_index(), 3 % 6);
    assert_eq!(state.color_index(), 3);
    assert_eq!(state.active_pair().background, color_pair(3).background);
    assert_eq!(state.glyph(), "\x1b[91m⬤\x1b[0m");
    assert_eq!(last, Some(String::from("\x1b[91m⬤\x1b[0m\x1b[0m\x1b[1D")));
    assert_eq!(state.len(), 0);
}

#[test]
fn paint_two_then_clear_key() {
    let mut state = CanvasState::new();
    step(&mut state, Event::Key(Key::Char('d')), at(40, 12), at(40, 12));
    step(&mut state, Event::Key(Key::Down), at(40, 12), at(40, 13));
    assert_eq!(state.len(), 2);
    let out = step(&mut state, Event::Key(Key::Char('c')), at(40, 13), at(40, 12));
    assert_eq!(state.len(), 0);
    assert!(!state.is_drawing());
    assert_eq!(out, Some(String::from("\x1b[2J\x1b[12;40H\x1b[95m⬤\x1b[0m\x1b[1D")));
}

#[test]
fn next_color_while_drawing_paints_in_the_new_color() {
    let mut state = CanvasState::new();
    state.toggle_drawing();
    step(&mut state, Event::Key(Key::Char('n')), at(3, 3), at(3, 3));
    assert_eq!(cells(&state), vec![(3, 3, "\x1b[44m")]);
    state.advance_color();
    assert_eq!(cells(&state), vec![(3, 3, "\x1b[44m")]);
}

#[test]
fn quit_changes_nothing() {
    let mut state = CanvasState::new();
    state.toggle_drawing();
    for event in [Event::Key(Key::Char('q')), Event::Key(Key::Ctrl('c')), Event::Key(Key::Esc)] {
        assert_eq!(step(&mut state, event, at(3, 3), at(3, 3)), None);
    }
    assert_eq!(state.len(), 0);
    assert!(state.is_drawing());
}

#[test]
fn paints_tells_whether_settle_will_paint() {
    let mut state = CanvasState::new();
    assert!(!state.paints(Command::MoveUp));
    assert!(!state.paints(Command::Suspend));
    state.toggle_drawing();
    assert!(state.paints(Command::MoveUp));
    assert!(state.paints(Command::Ignore));
    assert!(state.paints(Command::NextColor));
    assert!(!state.paints(Command::Suspend));
    assert!(!state.paints(Command::Jump(2, 2)));
    for command in [Command::MoveUp, Command::Suspend, Command::Jump(2, 2), Command::Ignore] {
        let before = state.len();
        let expected = if state.paints(command) { before + 1 } else { before };
        state.settle(command, at(6, 6));
        assert_eq!(state.len(), expected);
    }
}
