use term_canvas::text::push_decimal;
use term_canvas::{
    enter_commands, exit_commands, process_event, render_cell, step, Canvas, CanvasState, Cell,
    DebugPrinter, Flow, InputEvent, Key, Point, SessionCommand, Step, StepError, TerminalModes,
};

const NEXT: &str = "\x1b[1E\x1b[21G";

fn typed(c: char) -> InputEvent {
    InputEvent::Key(Key::Char(c))
}

#[test]
fn scenario_hi_enter_x() {
    let cols: u16 = 80;
    let mut s = CanvasState::new();
    let r = step(&mut s, cols, typed('H'));
    assert_eq!(r, Ok(Step::Draw(Cell { col: 0, row: 0, color: 0, glyph: 'H' })));
    let r = step(&mut s, cols, typed('i'));
    assert_eq!(r, Ok(Step::Draw(Cell { col: 1, row: 0, color: 1, glyph: 'i' })));
    assert_eq!(s.color, 2);
    assert_eq!(s.pos, 2);
    let r = step(&mut s, cols, InputEvent::Key(Key::Enter));
    assert_eq!(r, Ok(Step::Idle));
    // Enter adds one full row to the offset, whatever the column.
    assert_eq!(s.pos, 82);
    let r = step(&mut s, cols, typed('X'));
    assert_eq!(r, Ok(Step::Draw(Cell { col: 2, row: 1, color: 2, glyph: 'X' })));
    assert_eq!(s.color, 3);
    assert_eq!(s.pos, 83);
}

#[test]
fn enter_at_line_start_then_char() {
    let cols: u16 = 80;
    let mut s = CanvasState::new();
    assert_eq!(step(&mut s, cols, InputEvent::Key(Key::Enter)), Ok(Step::Idle));
    assert_eq!(s.pos, 80);
    let r = step(&mut s, cols, typed('X'));
    assert_eq!(r, Ok(Step::Draw(Cell { col: 0, row: 1, color: 0, glyph: 'X' })));
    assert_eq!(s.pos, 81);
    assert_eq!(s.color, 1);
}

#[test]
fn color_wraps_after_255() {
    let mut s = CanvasState { pos: 0, color: 255 };
    let r = step(&mut s, 80, typed('a'));
    assert_eq!(r, Ok(Step::Draw(Cell { col: 0, row: 0, color: 255, glyph: 'a' })));
    assert_eq!(s.color, 0);
    assert_eq!(s.pos, 1);
}

#[test]
fn color_counts_typed_chars() {
    let mut s = CanvasState::new();
    for n in 1..=300u32 {
        step(&mut s, 7, typed('z')).unwrap();
        assert_eq!(s.color as u32, n % 256);
        assert_eq!(s.pos as u32, n);
    }
}

#[test]
fn typed_char_cell_from_offset() {
    let mut s = CanvasState { pos: 163, color: 9 };
    let r = step(&mut s, 80, typed('q'));
    assert_eq!(r, Ok(Step::Draw(Cell { col: 3, row: 2, color: 9, glyph: 'q' })));
    assert_eq!(s.pos, 164);
}

#[test]
fn enter_adds_one_row_anywhere_in_row() {
    for start in [0u16, 1, 79, 80, 555] {
        let mut s = CanvasState { pos: start, color: 4 };
        assert_eq!(step(&mut s, 80, InputEvent::Key(Key::Enter)), Ok(Step::Idle));
        assert_eq!(s, CanvasState { pos: start + 80, color: 4 });
    }
}

#[test]
fn ignored_events_keep_state() {
    let events = [
        InputEvent::Mouse,
        InputEvent::Paste,
        InputEvent::Resize(10, 10),
        InputEvent::Other,
        InputEvent::Key(Key::Other),
    ];
    for e in events {
        let mut s = CanvasState { pos: 17, color: 200 };
        assert_eq!(step(&mut s, 80, e), Ok(Step::Idle));
        assert_eq!(s, CanvasState { pos: 17, color: 200 });
    }
}

#[test]
fn escape_quits_and_writes_nothing() {
    let mut s = CanvasState { pos: 5, color: 5 };
    let mut p = DebugPrinter::new((20, 20), 10);
    let mut out = String::from("kept");
    let r = process_event(&mut s, &mut p, Canvas { cols: 80, rows: 24 }, (80, 24), InputEvent::Key(Key::Esc), &mut out);
    assert_eq!(r, Ok(Flow::Quit));
    assert_eq!(out, "kept");
    assert_eq!(s, CanvasState { pos: 5, color: 5 });
}

#[test]
fn overflow_is_refused() {
    let mut s = CanvasState { pos: 65533, color: 1 };
    assert_eq!(step(&mut s, 80, typed('a')), Ok(Step::Draw(Cell { col: 13, row: 819, color: 1, glyph: 'a' })));
    assert_eq!(step(&mut s, 80, typed('b')), Ok(Step::Draw(Cell { col: 14, row: 819, color: 2, glyph: 'b' })));
    assert_eq!(s, CanvasState { pos: 65535, color: 3 });
    assert_eq!(step(&mut s, 80, typed('c')), Err(StepError::CursorOverflow));
    assert_eq!(s, CanvasState { pos: 65535, color: 3 });
    assert_eq!(step(&mut s, 1, InputEvent::Key(Key::Enter)), Err(StepError::CursorOverflow));
    let mut s = CanvasState { pos: 65455, color: 0 };
    assert_eq!(step(&mut s, 80, InputEvent::Key(Key::Enter)), Ok(Step::Idle));
    assert_eq!(s.pos, 65535);
    let mut s = CanvasState { pos: 65456, color: 0 };
    assert_eq!(step(&mut s, 80, InputEvent::Key(Key::Enter)), Err(StepError::CursorOverflow));
    assert_eq!(s.pos, 65456);
}

#[test]
fn last_offset_frame() {
    let mut s = CanvasState { pos: 65534, color: 9 };
    let mut p = DebugPrinter::new((20, 20), 0);
    let mut out = String::new();
    let r = process_event(&mut s, &mut p, Canvas { cols: 80, rows: 24 }, (80, 24), typed('e'), &mut out);
    assert_eq!(r, Ok(Flow::Continue));
    assert!(out.starts_with("\x1b[820;15H\x1b[48;5;9me"));
    assert!(out.contains(&format!("pos: 65535{}", NEXT)));
}

#[test]
fn ignored_events_inserted_anywhere() {
    let canvas = Canvas { cols: 10, rows: 4 };
    let plain = [typed('a'), InputEvent::Key(Key::Enter), typed('b')];
    let mixed = [
        InputEvent::Mouse,
        typed('a'),
        InputEvent::Paste,
        InputEvent::Resize(3, 3),
        InputEvent::Key(Key::Enter),
        InputEvent::Mouse,
        typed('b'),
        InputEvent::Paste,
    ];
    let grid = |evs: &[InputEvent]| {
        let mut s = CanvasState::new();
        let mut drawn = String::new();
        for e in evs {
            if let Ok(Step::Draw(cell)) = step(&mut s, canvas.cols, *e) {
                render_cell(cell, canvas, s.pos, &mut drawn);
            }
        }
        (s, drawn)
    };
    assert_eq!(grid(&plain), grid(&mixed));
    assert_eq!(grid(&mixed).0, CanvasState { pos: 12, color: 2 });
}

#[test]
fn render_cell_clears_ahead() {
    let mut out = String::new();
    render_cell(Cell { col: 1, row: 0, color: 7, glyph: 'Z' }, Canvas { cols: 4, rows: 3 }, 2, &mut out);
    let expected = format!("\x1b[1;2H\x1b[48;5;7mZ{}{}", " ".repeat(2), " ".repeat(8));
    assert_eq!(out, expected);
}

#[test]
fn render_cell_on_last_row() {
    let mut out = String::new();
    render_cell(Cell { col: 3, row: 2, color: 255, glyph: 'w' }, Canvas { cols: 4, rows: 3 }, 12, &mut out);
    // offset 12 starts row 3, past the grid: a full row of blanks, none below.
    assert_eq!(out, "\x1b[3;4H\x1b[48;5;255mw    ");
}

#[test]
fn typed_char_frame() {
    let mut s = CanvasState::new();
    let mut p = DebugPrinter::new((20, 20), 0);
    let mut out = String::new();
    let r = process_event(&mut s, &mut p, Canvas { cols: 3, rows: 2 }, (3, 2), typed('a'), &mut out);
    assert_eq!(r, Ok(Flow::Continue));
    let expected = format!(
        "\x1b[1;1H\x1b[48;5;0ma{}{}\x1b[21;31H\x1b[48;5;0m\x1b[21;21H\x1b[48;5;0msize: 2,3{n}pos: 1{n}next_color_code: 1{n}size: (3, 2){n}",
        "  ",
        "   ",
        n = NEXT
    );
    assert_eq!(out, expected);
    assert!(p.buf.is_empty());
    assert_eq!(s, CanvasState { pos: 1, color: 1 });
}

#[test]
fn ignored_event_frame_has_overlay_only() {
    let mut s = CanvasState { pos: 12, color: 3 };
    let mut p = DebugPrinter::new((20, 20), 0);
    let mut out = String::new();
    let r = process_event(&mut s, &mut p, Canvas { cols: 80, rows: 24 }, (100, 30), InputEvent::Mouse, &mut out);
    assert_eq!(r, Ok(Flow::Continue));
    let expected = format!(
        "\x1b[21;31H\x1b[48;5;0m\x1b[21;21H\x1b[48;5;0msize: 24,80{n}pos: 12{n}next_color_code: 3{n}size: (100, 30){n}",
        n = NEXT
    );
    assert_eq!(out, expected);
    assert_eq!(s, CanvasState { pos: 12, color: 3 });
}

#[test]
fn overlay_pads_and_flush_empties() {
    let mut p = DebugPrinter::new((20, 20), 10);
    p.print("ab");
    assert!(!p.buf.is_empty());
    let mut out = String::new();
    p.flush(&mut out);
    assert!(p.buf.is_empty());
    assert_eq!(out, format!("\x1b[21;21H\x1b[48;5;0mab--------{}", NEXT));
}

#[test]
fn overlay_keeps_long_lines_whole() {
    let mut p = DebugPrinter::new((4, 9), 3);
    p.print("abcdef");
    p.print("xy");
    assert_eq!(p.buf, "abcdef\x1b[1E\x1b[5Gxy-\x1b[1E\x1b[5G");
    let mut out = String::new();
    p.flush(&mut out);
    assert_eq!(out, "\x1b[10;5H\x1b[48;5;0mabcdef\x1b[1E\x1b[5Gxy-\x1b[1E\x1b[5G");
    assert_eq!(p.buf, "");
}

#[test]
fn flush_of_empty_panel_writes_header_only() {
    let mut p = DebugPrinter::new((0, 0), 50);
    let mut out = String::new();
    p.flush(&mut out);
    assert_eq!(out, "\x1b[1;1H\x1b[48;5;0m");
}

#[test]
fn decimal_text() {
    let mut s = String::from("n=");
    push_decimal(&mut s, 0);
    s.push(' ');
    push_decimal(&mut s, 65535);
    s.push(' ');
    push_decimal(&mut s, u64::MAX);
    assert_eq!(s, "n=0 65535 18446744073709551615");
}

#[test]
fn session_enter_then_exit_restores_modes() {
    let start = TerminalModes::plain(Point { col: 7, row: 3 });
    let mut m = start;
    for c in enter_commands() {
        m.apply(c);
    }
    assert!(m.raw && m.cursor_hidden && m.mouse_capture && m.alternate_screen);
    assert_eq!(m.cursor, Point { col: 0, row: 0 });
    for c in exit_commands() {
        m.apply(c);
    }
    assert!(!m.raw && !m.cursor_hidden && !m.mouse_capture && !m.alternate_screen);
    assert_eq!(m.cursor, Point { col: 7, row: 3 });
}

#[test]
fn session_command_order() {
    assert_eq!(
        enter_commands(),
        vec![
            SessionCommand::EnableRawMode,
            SessionCommand::SavePosition,
            SessionCommand::HideCursor,
            SessionCommand::EnableMouseCapture,
            SessionCommand::EnterAlternateScreen,
            SessionCommand::MoveTo(0, 0),
        ]
    );
    let exit = exit_commands();
    assert_eq!(exit.first(), Some(&SessionCommand::LeaveAlternateScreen));
    assert_eq!(exit.last(), Some(&SessionCommand::DisableRawMode));
    assert_eq!(exit.len(), 5);
}

#[test]
fn every_frame_shows_captured_size() {
    let canvas = Canvas { cols: 80, rows: 24 };
    let mut s = CanvasState::new();
    let mut p = DebugPrinter::new((20, 20), 0);
    for e in [InputEvent::Key(Key::Enter), InputEvent::Paste, InputEvent::Resize(9, 9), InputEvent::Key(Key::Other)] {
        let mut out = String::new();
        assert_eq!(process_event(&mut s, &mut p, canvas, (80, 24), e, &mut out), Ok(Flow::Continue));
        let overlay = out.split("\x1b[21;21H\x1b[48;5;0m").nth(1).unwrap();
        assert!(overlay.starts_with(&format!("size: 24,80{}pos: ", NEXT)));
    }
}

#[test]
fn mouse_after_char_repeats_overlay() {
    let canvas = Canvas { cols: 80, rows: 24 };
    let mut s = CanvasState::new();
    let mut p = DebugPrinter::new((20, 20), 50);
    let mut first = String::new();
    assert_eq!(process_event(&mut s, &mut p, canvas, (80, 24), typed('k'), &mut first), Ok(Flow::Continue));
    let mut second = String::new();
    assert_eq!(process_event(&mut s, &mut p, canvas, (80, 24), InputEvent::Mouse, &mut second), Ok(Flow::Continue));
    assert!(first.len() > second.len());
    assert!(first.ends_with(&second));
    assert!(second.starts_with("\x1b[21;31H"));
}
