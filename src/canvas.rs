use vstd::prelude::*;
use crate::ansi::{background_seq, background_text, move_to_seq, move_to_text, Shade};
use crate::overlay::{overlay_flush_seq, overlay_line, DebugPrinter};
use crate::text::{decimal, push_char, push_decimal, push_repeated, push_str, repeat_char};

verus! {

/// Where the terminal cursor is parked, as (column, row), before the overlay
/// is drawn each iteration.
pub const STATUS_COL: u16 = 30;
pub const STATUS_ROW: u16 = 20;

/// The grid's dimensions, captured once when the loop starts.
#[derive(Clone, Copy, Debug, PartialEq, Eq, Structural)]
pub struct Canvas {
    pub cols: u16,
    pub rows: u16,
}

/// What the loop keeps between events: the linear cursor offset into the
/// row-major grid, and the palette index of the next typed character.
///
/// The offset is not wrapped into the grid; its cell is derived against the
/// width when drawn. It is a `u16`, as terminal coordinates are: an event
/// that would carry it past `u16::MAX` is refused.
#[derive(Clone, Copy, Debug, PartialEq, Eq, Structural)]
pub struct CanvasState {
    pub pos: u16,
    pub color: u8,
}

#[derive(Clone, Copy, Debug, PartialEq, Eq, Structural)]
pub enum Key {
    Esc,
    Enter,
    Char(char),
    Other,
}

/// An input event, as far as the loop tells events apart.
#[derive(Clone, Copy, Debug, PartialEq, Eq, Structural)]
pub enum InputEvent {
    Key(Key),
    Mouse,
    Paste,
    Resize(u16, u16),
    Other,
}

/// One grid cell to draw.
#[derive(Clone, Copy, Debug, PartialEq, Eq, Structural)]
pub struct Cell {
    pub col: u16,
    pub row: u16,
    pub color: u8,
    pub glyph: char,
}

/// What an event asks of the loop.
#[derive(Clone, Copy, Debug, PartialEq, Eq, Structural)]
pub enum Step {
    Quit,
    Idle,
    Draw(Cell),
}

#[derive(Clone, Copy, Debug, PartialEq, Eq, Structural)]
pub enum StepError {
    /// The cursor offset would leave the range of terminal coordinates.
    CursorOverflow,
}

/// Whether the loop goes on after an event.
#[derive(Clone, Copy, Debug, PartialEq, Eq, Structural)]
pub enum Flow {
    Continue,
    Quit,
}

impl CanvasState {
    /// The state at loop start: offset 0, palette index 0.
    pub fn new() -> (r: CanvasState)
        ensures
            r.pos == 0,
            r.color == 0,
    {
        CanvasState { pos: 0, color: 0 }
    }
}

/// Whether the event would carry the cursor offset past `u16::MAX`.
pub open spec fn overflows(s: CanvasState, cols: u16, e: InputEvent) -> bool {
    match e {
        InputEvent::Key(Key::Enter) => s.pos + cols > u16::MAX,
        InputEvent::Key(Key::Char(_)) => s.pos + 1 > u16::MAX,
        _ => false,
    }
}

/// The cursor offset after the event: Enter moves one full row down, a
/// character one cell on, anything else leaves it.
pub open spec fn next_pos(pos: int, cols: int, e: InputEvent) -> int {
    match e {
        InputEvent::Key(Key::Enter) => pos + cols,
        InputEvent::Key(Key::Char(_)) => pos + 1,
        _ => pos,
    }
}

/// The palette index after the event: one on, modulo 256, per character.
pub open spec fn next_color(color: int, e: InputEvent) -> int {
    match e {
        InputEvent::Key(Key::Char(_)) => (color + 1) % 256,
        _ => color,
    }
}

pub open spec fn next_state(s: CanvasState, cols: u16, e: InputEvent) -> CanvasState {
    CanvasState {
        pos: next_pos(s.pos as int, cols as int, e) as u16,
        color: next_color(s.color as int, e) as u8,
    }
}

/// The cell that a character typed in state `s` goes to: the column and row
/// that the offset gives against the width, in the current color.
pub open spec fn cell_for(s: CanvasState, cols: u16, c: char) -> Cell {
    Cell {
        col: (s.pos % cols) as u16,
        row: (s.pos / cols) as u16,
        color: s.color,
        glyph: c,
    }
}

/// What the event asks of the loop, when it does not overflow.
pub open spec fn step_of(s: CanvasState, cols: u16, e: InputEvent) -> Step {
    match e {
        InputEvent::Key(Key::Esc) => Step::Quit,
        InputEvent::Key(Key::Char(c)) => Step::Draw(cell_for(s, cols, c)),
        _ => Step::Idle,
    }
}

/// Decides one event: updates the state and says what to draw.
pub fn step(state: &mut CanvasState, cols: u16, event: InputEvent) -> (r: Result<Step, StepError>)
    requires
        cols > 0,
    ensures
        r is Err <==> overflows(*old(state), cols, event),
        r is Err ==> *final(state) == *old(state),
        r is Ok ==> r == Ok::<Step, StepError>(step_of(*old(state), cols, event)),
        r is Ok ==> *final(state) == next_state(*old(state), cols, event),
{
    match event {
        InputEvent::Key(Key::Esc) => Ok(Step::Quit),
        InputEvent::Key(Key::Enter) => {
            if state.pos as u32 + cols as u32 > u16::MAX as u32 {
                Err(StepError::CursorOverflow)
            } else {
                state.pos = state.pos + cols;
                Ok(Step::Idle)
            }
        },
        InputEvent::Key(Key::Char(c)) => {
            if state.pos == u16::MAX {
                Err(StepError::CursorOverflow)
            } else {
                let cell = Cell { col: state.pos % cols, row: state.pos / cols, color: state.color, glyph: c };
                state.pos = state.pos + 1;
                state.color = if state.color == u8::MAX {
                    0
                } else {
                    state.color + 1
                };
                Ok(Step::Draw(cell))
            }
        },
        _ => Ok(Step::Idle),
    }
}

/// The blanks written after a character: the rest of the row the offset
/// `after` falls in, then every row below it down to the last grid row.
pub open spec fn row_rest(after: nat, canvas: Canvas) -> nat {
    (canvas.cols - after % (canvas.cols as nat)) as nat
}

pub open spec fn rows_below(after: nat, canvas: Canvas) -> nat {
    let row = after / (canvas.cols as nat);
    if canvas.rows > row + 1 {
        ((canvas.rows - row - 1) * canvas.cols) as nat
    } else {
        0
    }
}

/// The text that draws one cell: a move to it, its background, its glyph,
/// then the blanks that clear ahead of the new offset `after`.
pub open spec fn cell_seq(cell: Cell, canvas: Canvas, after: nat) -> Seq<char> {
    move_to_seq(cell.col, cell.row) + background_seq(Shade::Palette(cell.color)) + seq![cell.glyph]
        + repeat_char(' ', row_rest(after, canvas)) + repeat_char(' ', rows_below(after, canvas))
}

/// Appends the text that draws `cell`, with the cursor offset now `after`.
pub fn render_cell(cell: Cell, canvas: Canvas, after: u16, out: &mut String)
    requires
        canvas.cols > 0,
        cell.col < u16::MAX,
        cell.row < u16::MAX,
    ensures
        final(out)@ == old(out)@ + cell_seq(cell, canvas, after as nat),
{
    let head = move_to_text(cell.col, cell.row);
    push_str(out, head.as_str());
    let shade = background_text(Shade::Palette(cell.color));
    push_str(out, shade.as_str());
    push_char(out, cell.glyph);
    let rest = canvas.cols - after % canvas.cols;
    push_repeated(out, ' ', rest as u64);
    let row = after / canvas.cols;
    let below: u64 = if canvas.rows as u32 > row as u32 + 1 {
        let k = (canvas.rows - row - 1) as u64;
        assert(k * (canvas.cols as u64) <= 65535 * 65535) by (nonlinear_arith)
            requires
                k <= 65535,
                canvas.cols <= 65535,
        ;
        k * canvas.cols as u64
    } else {
        0
    };
    push_repeated(out, ' ', below);
    assert(final(out)@ =~= old(out)@ + cell_seq(cell, canvas, after as nat));
}

/// The overlay line with the grid size captured at loop start.
pub open spec fn grid_size_line(canvas: Canvas) -> Seq<char> {
    "size: "@ + decimal(canvas.rows as nat) + seq![','] + decimal(canvas.cols as nat)
}

pub open spec fn pos_line(pos: nat) -> Seq<char> {
    "pos: "@ + decimal(pos)
}

pub open spec fn color_line(color: nat) -> Seq<char> {
    "next_color_code: "@ + decimal(color)
}

/// The overlay line with the terminal size queried this iteration, as
/// (columns, rows).
pub open spec fn live_size_line(size: (u16, u16)) -> Seq<char> {
    "size: ("@ + decimal(size.0 as nat) + ", "@ + decimal(size.1 as nat) + seq![')']
}

/// What the event itself draws on the grid.
pub open spec fn draw_seq(s: CanvasState, canvas: Canvas, e: InputEvent) -> Seq<char> {
    match step_of(s, canvas.cols, e) {
        Step::Draw(cell) => cell_seq(cell, canvas, (s.pos + 1) as nat),
        _ => Seq::empty(),
    }
}

/// The overlay lines added after every event that does not end the loop:
/// the grid size captured at start, offset, palette index, live size.
pub open spec fn status_lines(
    canvas: Canvas,
    s: CanvasState,
    size: (u16, u16),
    width: nat,
    col: u16,
) -> Seq<char> {
    overlay_line(grid_size_line(canvas), width, col) + overlay_line(
        pos_line(s.pos as nat),
        width,
        col,
    ) + overlay_line(
        color_line(s.color as nat),
        width,
        col,
    ) + overlay_line(live_size_line(size), width, col)
}

/// Everything one loop iteration writes for an event that does not end it.
pub open spec fn frame_seq(
    s: CanvasState,
    canvas: Canvas,
    size: (u16, u16),
    e: InputEvent,
    p: DebugPrinter,
) -> Seq<char> {
    draw_seq(s, canvas, e) + overlay_frame_seq(canvas, next_state(s, canvas.cols, e), size, p)
}

/// The overlay part of an iteration's output, with `s` the state after the
/// event: the parked cursor, then the flushed panel.
pub open spec fn overlay_frame_seq(
    canvas: Canvas,
    s: CanvasState,
    size: (u16, u16),
    p: DebugPrinter,
) -> Seq<char> {
    move_to_seq(STATUS_COL, STATUS_ROW) + background_seq(Shade::Black) + overlay_flush_seq(
        p.pos,
        p.buf@ + status_lines(canvas, s, size, p.width as nat, p.pos.0),
    )
}

fn text_of(t: &str) -> (r: String)
    ensures
        r@ == t@,
{
    let mut r = String::new();
    push_str(&mut r, t);
    assert(r@ =~= t@);
    r
}

fn grid_size_text(canvas: Canvas) -> (r: String)
    ensures
        r@ == grid_size_line(canvas),
{
    let mut r = text_of("size: ");
    push_decimal(&mut r, canvas.rows as u64);
    push_char(&mut r, ',');
    push_decimal(&mut r, canvas.cols as u64);
    r
}

fn pos_text(pos: u16) -> (r: String)
    ensures
        r@ == pos_line(pos as nat),
{
    let mut r = text_of("pos: ");
    push_decimal(&mut r, pos as u64);
    r
}

fn color_text(color: u8) -> (r: String)
    ensures
        r@ == color_line(color as nat),
{
    let mut r = text_of("next_color_code: ");
    push_decimal(&mut r, color as u64);
    r
}

fn live_size_text(size: (u16, u16)) -> (r: String)
    ensures
        r@ == live_size_line(size),
{
    let mut r = text_of("size: (");
    push_decimal(&mut r, size.0 as u64);
    push_str(&mut r, ", ");
    push_decimal(&mut r, size.1 as u64);
    push_char(&mut r, ')');
    r
}

/// Runs one iteration of the loop on `event`: decides it, appends to `out`
/// what it draws, then the overlay (parked cursor, status lines, flush).
/// `size` is the terminal size queried for this iteration.
///
/// Escape ends the loop and writes nothing; an event that would overflow the
/// cursor offset is refused and changes nothing.
pub fn process_event(
    state: &mut CanvasState,
    printer: &mut DebugPrinter,
    canvas: Canvas,
    size: (u16, u16),
    event: InputEvent,
    out: &mut String,
) -> (r: Result<Flow, StepError>)
    requires
        canvas.cols > 0,
        old(printer).wf(),
    ensures
        r is Err <==> overflows(*old(state), canvas.cols, event),
        r == Ok::<Flow, StepError>(Flow::Quit) <==> event == InputEvent::Key(Key::Esc),
        r != Ok::<Flow, StepError>(Flow::Continue) ==> *final(state) == *old(state) && final(out)@
            == old(out)@ && *final(printer) == *old(printer),
        r == Ok::<Flow, StepError>(Flow::Continue) ==> *final(state) == next_state(
            *old(state),
            canvas.cols,
            event,
        ) && final(out)@ == old(out)@ + frame_seq(*old(state), canvas, size, event, *old(printer)),
        final(printer).wf(),
        final(printer).pos == old(printer).pos,
        final(printer).width == old(printer).width,
        r == Ok::<Flow, StepError>(Flow::Continue) ==> final(printer).buf@.len() == 0,
{
    let before = *state;
    let stepped = step(state, canvas.cols, event);
    match stepped {
        Err(e) => {
            return Err(e);
        },
        Ok(Step::Quit) => {
            return Ok(Flow::Quit);
        },
        Ok(Step::Draw(cell)) => {
            proof {
                let cols = canvas.cols as int;
                let p = before.pos as int;
                assert(p < u16::MAX);
                assert(p / cols <= p) by (nonlinear_arith)
                    requires
                        cols >= 1,
                        p >= 0,
                ;
            }
            render_cell(cell, canvas, state.pos, out);
        },
        Ok(Step::Idle) => {},
    }
    let park = move_to_text(STATUS_COL, STATUS_ROW);
    push_str(out, park.as_str());
    let shade = background_text(Shade::Black);
    push_str(out, shade.as_str());
    let line = grid_size_text(canvas);
    printer.print(line.as_str());
    let line = pos_text(state.pos);
    printer.print(line.as_str());
    let line = color_text(state.color);
    printer.print(line.as_str());
    let line = live_size_text(size);
    printer.print(line.as_str());
    printer.flush(out);
    proof {
        let p = *old(printer);
        let w = p.width as nat;
        let c = p.pos.0;
        assert(p.buf@ + status_lines(canvas, *state, size, w, c) =~= p.buf@ + overlay_line(
            grid_size_line(canvas),
            w,
            c,
        ) + overlay_line(pos_line(state.pos as nat), w, c) + overlay_line(
            color_line(state.color as nat),
            w,
            c,
        ) + overlay_line(
            live_size_line(size),
            w,
            c,
        ));
        assert(final(out)@ =~= old(out)@ + frame_seq(before, canvas, size, event, p));
    }
    Ok(Flow::Continue)
}

/// The state after the loop has processed `evs` in order; an event that would
/// overflow the cursor offset is refused and leaves the state as it is.
pub open spec fn run(s: CanvasState, cols: u16, evs: Seq<InputEvent>) -> CanvasState
    decreases evs.len(),
{
    if evs.len() == 0 {
        s
    } else {
        let t = run(s, cols, evs.drop_last());
        if overflows(t, cols, evs.last()) {
            t
        } else {
            next_state(t, cols, evs.last())
        }
    }
}

pub open spec fn is_printable(e: InputEvent) -> bool {
    e matches InputEvent::Key(Key::Char(_))
}

/// From the loop's starting state, `n` typed characters (`n` at most 256)
/// leave the palette index at `n` modulo 256 and the offset at `n`.
pub proof fn lemma_color_counts_typed_chars(cols: u16, evs: Seq<InputEvent>)
    requires
        evs.len() <= 256,
        forall|i: int| 0 <= i < evs.len() ==> is_printable(#[trigger] evs[i]),
    ensures
        run(CanvasState { pos: 0, color: 0 }, cols, evs).color == evs.len() % 256,
        run(CanvasState { pos: 0, color: 0 }, cols, evs).pos == evs.len(),
    decreases evs.len(),
{
    if evs.len() > 0 {
        let front = evs.drop_last();
        assert forall|i: int| 0 <= i < front.len() implies is_printable(#[trigger] front[i]) by {
            assert(front[i] == evs[i]);
        }
        lemma_color_counts_typed_chars(cols, front);
        assert(is_printable(evs[evs.len() - 1]));
        assert((front.len() % 256 + 1) % 256 == evs.len() % 256) by {
            assert(front.len() < 256 ==> front.len() % 256 == front.len());
        }
    }
}

/// A character typed at offset `p` draws exactly the cell at column
/// `p % cols`, row `p / cols`, in the current color, and moves to `p + 1`.
pub proof fn lemma_typed_char_cell(s: CanvasState, cols: u16, c: char)
    requires
        cols > 0,
        !overflows(s, cols, InputEvent::Key(Key::Char(c))),
    ensures
        step_of(s, cols, InputEvent::Key(Key::Char(c))) == Step::Draw(
            Cell {
                col: (s.pos % cols) as u16,
                row: (s.pos / cols) as u16,
                color: s.color,
                glyph: c,
            },
        ),
        next_state(s, cols, InputEvent::Key(Key::Char(c))).pos == s.pos + 1,
{
}

/// Enter moves the offset on by exactly one row width, wherever in the row
/// it stands, and draws nothing.
pub proof fn lemma_enter_moves_one_row(s: CanvasState, canvas: Canvas)
    requires
        !overflows(s, canvas.cols, InputEvent::Key(Key::Enter)),
    ensures
        next_state(s, canvas.cols, InputEvent::Key(Key::Enter)).pos == s.pos + canvas.cols,
        next_state(s, canvas.cols, InputEvent::Key(Key::Enter)).color == s.color,
        draw_seq(s, canvas, InputEvent::Key(Key::Enter)) == Seq::<char>::empty(),
{
}

/// Mouse, paste and resize events change neither the offset nor the palette
/// index, draw nothing on the grid, and write only the overlay of the state
/// they found.
pub proof fn lemma_ignored_events_change_nothing(
    s: CanvasState,
    canvas: Canvas,
    size: (u16, u16),
    e: InputEvent,
    p: DebugPrinter,
)
    requires
        e is Mouse || e is Paste || e is Resize,
    ensures
        !overflows(s, canvas.cols, e),
        next_state(s, canvas.cols, e) == s,
        step_of(s, canvas.cols, e) == Step::Idle,
        draw_seq(s, canvas, e) == Seq::<char>::empty(),
        frame_seq(s, canvas, size, e, p) == overlay_frame_seq(canvas, s, size, p),
{
    assert(frame_seq(s, canvas, size, e, p) =~= overlay_frame_seq(canvas, s, size, p));
}

/// After any event that the loop goes on from, a mouse, paste or resize
/// event with the same terminal size and an emptied panel writes the same
/// overlay text again, and nothing else.
pub proof fn lemma_ignored_event_repeats_overlay(
    s: CanvasState,
    canvas: Canvas,
    size: (u16, u16),
    first: InputEvent,
    later: InputEvent,
    p: DebugPrinter,
)
    requires
        !overflows(s, canvas.cols, first),
        first != InputEvent::Key(Key::Esc),
        later is Mouse || later is Paste || later is Resize,
        p.buf@.len() == 0,
    ensures
        frame_seq(s, canvas, size, first, p) == draw_seq(s, canvas, first) + frame_seq(
            next_state(s, canvas.cols, first),
            canvas,
            size,
            later,
            p,
        ),
{
    let t = next_state(s, canvas.cols, first);
    lemma_ignored_events_change_nothing(t, canvas, size, later, p);
}

/// Mouse, paste and resize events: the loop takes them and ignores them.
pub open spec fn is_ignored(e: InputEvent) -> bool {
    e is Mouse || e is Paste || e is Resize
}

/// `evs` with the ignored events taken out, the others kept in order.
pub open spec fn without_ignored(evs: Seq<InputEvent>) -> Seq<InputEvent>
    decreases evs.len(),
{
    if evs.len() == 0 {
        evs
    } else if is_ignored(evs.last()) {
        without_ignored(evs.drop_last())
    } else {
        without_ignored(evs.drop_last()).push(evs.last())
    }
}

/// Everything the loop draws on the grid while processing `evs` in order.
pub open spec fn drawn(s: CanvasState, canvas: Canvas, evs: Seq<InputEvent>) -> Seq<char>
    decreases evs.len(),
{
    if evs.len() == 0 {
        Seq::empty()
    } else {
        let t = run(s, canvas.cols, evs.drop_last());
        drawn(s, canvas, evs.drop_last()) + if overflows(t, canvas.cols, evs.last()) {
            Seq::<char>::empty()
        } else {
            draw_seq(t, canvas, evs.last())
        }
    }
}

proof fn lemma_run_skips_ignored(s: CanvasState, canvas: Canvas, evs: Seq<InputEvent>)
    ensures
        run(s, canvas.cols, evs) == run(s, canvas.cols, without_ignored(evs)),
        drawn(s, canvas, evs) == drawn(s, canvas, without_ignored(evs)),
    decreases evs.len(),
{
    if evs.len() > 0 {
        let front = evs.drop_last();
        let e = evs.last();
        lemma_run_skips_ignored(s, canvas, front);
        let t = run(s, canvas.cols, front);
        if is_ignored(e) {
            assert(!overflows(t, canvas.cols, e) && next_state(t, canvas.cols, e) == t);
            assert(draw_seq(t, canvas, e) =~= Seq::<char>::empty());
            assert(drawn(s, canvas, evs) =~= drawn(s, canvas, front));
        } else {
            let w = without_ignored(front);
            assert(without_ignored(evs) == w.push(e));
            assert(w.push(e).drop_last() =~= w);
            assert(w.push(e).last() == e);
        }
    }
}

/// Inserting mouse, paste and resize events anywhere into a run of events
/// changes neither the state the loop ends in nor what it draws on the grid.
pub proof fn lemma_ignored_events_anywhere(
    s: CanvasState,
    canvas: Canvas,
    a: Seq<InputEvent>,
    b: Seq<InputEvent>,
)
    requires
        without_ignored(a) == without_ignored(b),
    ensures
        run(s, canvas.cols, a) == run(s, canvas.cols, b),
        drawn(s, canvas, a) == drawn(s, canvas, b),
{
    lemma_run_skips_ignored(s, canvas, a);
    lemma_run_skips_ignored(s, canvas, b);
}

} // verus!
