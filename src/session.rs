use vstd::prelude::*;

verus! {

/// One terminal-mode command of the session bracket.
#[derive(Clone, Copy, Debug, PartialEq, Eq, Structural)]
pub enum SessionCommand {
    EnableRawMode,
    SavePosition,
    HideCursor,
    EnableMouseCapture,
    EnterAlternateScreen,
    /// Moves the cursor to (column, row).
    MoveTo(u16, u16),
    LeaveAlternateScreen,
    DisableMouseCapture,
    RestorePosition,
    ShowCursor,
    DisableRawMode,
}

/// A screen position.
#[derive(Clone, Copy, Debug, PartialEq, Eq, Structural)]
pub struct Point {
    pub col: u16,
    pub row: u16,
}

/// The terminal state that the session commands act on.
#[derive(Clone, Copy, Debug, PartialEq, Eq, Structural)]
pub struct TerminalModes {
    pub raw: bool,
    pub cursor_hidden: bool,
    pub mouse_capture: bool,
    pub alternate_screen: bool,
    pub cursor: Point,
    /// The position kept by the last save, if any.
    pub saved: Option<Point>,
}

impl TerminalModes {
    /// A terminal in its ordinary mode: line-buffered, cursor shown, no mouse
    /// capture, primary screen.
    pub open spec fn is_plain(&self) -> bool {
        !self.raw && !self.cursor_hidden && !self.mouse_capture && !self.alternate_screen
    }

    /// Whether `other` has the same mode flags and cursor.
    pub open spec fn same_modes(&self, other: TerminalModes) -> bool {
        self.raw == other.raw && self.cursor_hidden == other.cursor_hidden && self.mouse_capture
            == other.mouse_capture && self.alternate_screen == other.alternate_screen
            && self.cursor == other.cursor
    }

    /// An ordinary terminal with its cursor at `cursor` and nothing saved.
    pub fn plain(cursor: Point) -> (r: TerminalModes)
        ensures
            r.is_plain(),
            r.cursor == cursor,
            r.saved is None,
    {
        TerminalModes {
            raw: false,
            cursor_hidden: false,
            mouse_capture: false,
            alternate_screen: false,
            cursor,
            saved: None,
        }
    }

    /// Carries out one command on the model.
    pub fn apply(&mut self, c: SessionCommand)
        ensures
            *final(self) == apply_command(*old(self), c),
    {
        match c {
            SessionCommand::EnableRawMode => self.raw = true,
            SessionCommand::DisableRawMode => self.raw = false,
            SessionCommand::SavePosition => self.saved = Some(self.cursor),
            SessionCommand::RestorePosition => {
                if let Some(p) = self.saved {
                    self.cursor = p;
                }
            },
            SessionCommand::HideCursor => self.cursor_hidden = true,
            SessionCommand::ShowCursor => self.cursor_hidden = false,
            SessionCommand::EnableMouseCapture => self.mouse_capture = true,
            SessionCommand::DisableMouseCapture => self.mouse_capture = false,
            SessionCommand::EnterAlternateScreen => self.alternate_screen = true,
            SessionCommand::LeaveAlternateScreen => self.alternate_screen = false,
            SessionCommand::MoveTo(col, row) => self.cursor = Point { col, row },
        }
    }
}

/// What a command does to the terminal state. Restoring with nothing saved
/// leaves the cursor where it is.
pub open spec fn apply_command(m: TerminalModes, c: SessionCommand) -> TerminalModes {
    match c {
        SessionCommand::EnableRawMode => TerminalModes { raw: true, ..m },
        SessionCommand::DisableRawMode => TerminalModes { raw: false, ..m },
        SessionCommand::SavePosition => TerminalModes { saved: Some(m.cursor), ..m },
        SessionCommand::RestorePosition => match m.saved {
            Some(p) => TerminalModes { cursor: p, ..m },
            None => m,
        },
        SessionCommand::HideCursor => TerminalModes { cursor_hidden: true, ..m },
        SessionCommand::ShowCursor => TerminalModes { cursor_hidden: false, ..m },
        SessionCommand::EnableMouseCapture => TerminalModes { mouse_capture: true, ..m },
        SessionCommand::DisableMouseCapture => TerminalModes { mouse_capture: false, ..m },
        SessionCommand::EnterAlternateScreen => TerminalModes { alternate_screen: true, ..m },
        SessionCommand::LeaveAlternateScreen => TerminalModes { alternate_screen: false, ..m },
        SessionCommand::MoveTo(col, row) => TerminalModes { cursor: Point { col, row }, ..m },
    }
}

/// The state after carrying out `cs` in order.
pub open spec fn apply_commands(m: TerminalModes, cs: Seq<SessionCommand>) -> TerminalModes
    decreases cs.len(),
{
    if cs.len() == 0 {
        m
    } else {
        apply_command(apply_commands(m, cs.drop_last()), cs.last())
    }
}

/// Entering the session: raw input, cursor saved and hidden, mouse captured,
/// alternate screen, cursor at the grid origin.
pub open spec fn enter_seq() -> Seq<SessionCommand> {
    seq![
        SessionCommand::EnableRawMode,
        SessionCommand::SavePosition,
        SessionCommand::HideCursor,
        SessionCommand::EnableMouseCapture,
        SessionCommand::EnterAlternateScreen,
        SessionCommand::MoveTo(0, 0),
    ]
}

/// Leaving the session: primary screen first, raw mode last.
pub open spec fn exit_seq() -> Seq<SessionCommand> {
    seq![
        SessionCommand::LeaveAlternateScreen,
        SessionCommand::DisableMouseCapture,
        SessionCommand::RestorePosition,
        SessionCommand::ShowCursor,
        SessionCommand::DisableRawMode,
    ]
}

/// The commands that enter the session, in the order they are issued.
pub fn enter_commands() -> (r: Vec<SessionCommand>)
    ensures
        r@ == enter_seq(),
{
    let r = vec![
        SessionCommand::EnableRawMode,
        SessionCommand::SavePosition,
        SessionCommand::HideCursor,
        SessionCommand::EnableMouseCapture,
        SessionCommand::EnterAlternateScreen,
        SessionCommand::MoveTo(0, 0),
    ];
    assert(r@ =~= enter_seq());
    r
}

/// The commands that leave the session, in the order they are issued.
pub fn exit_commands() -> (r: Vec<SessionCommand>)
    ensures
        r@ == exit_seq(),
{
    let r = vec![
        SessionCommand::LeaveAlternateScreen,
        SessionCommand::DisableMouseCapture,
        SessionCommand::RestorePosition,
        SessionCommand::ShowCursor,
        SessionCommand::DisableRawMode,
    ];
    assert(r@ =~= exit_seq());
    r
}

/// Entering the session and leaving it at once gives an ordinary terminal
/// back its mode flags and its cursor position.
pub proof fn lemma_enter_exit_restores(m: TerminalModes)
    requires
        m.is_plain(),
    ensures
        apply_commands(apply_commands(m, enter_seq()), exit_seq()).same_modes(m),
{
    let e = enter_seq();
    let x = exit_seq();
    assert(e.drop_last() =~= e.subrange(0, 5));
    assert(e.subrange(0, 5).drop_last() =~= e.subrange(0, 4));
    assert(e.subrange(0, 4).drop_last() =~= e.subrange(0, 3));
    assert(e.subrange(0, 3).drop_last() =~= e.subrange(0, 2));
    assert(e.subrange(0, 2).drop_last() =~= e.subrange(0, 1));
    assert(e.subrange(0, 1).drop_last() =~= Seq::<SessionCommand>::empty());
    reveal_with_fuel(apply_commands, 7);
    let entered = apply_commands(m, e);
    assert(entered.saved == Some(m.cursor));
    assert(x.drop_last() =~= x.subrange(0, 4));
    assert(x.subrange(0, 4).drop_last() =~= x.subrange(0, 3));
    assert(x.subrange(0, 3).drop_last() =~= x.subrange(0, 2));
    assert(x.subrange(0, 2).drop_last() =~= x.subrange(0, 1));
    assert(x.subrange(0, 1).drop_last() =~= Seq::<SessionCommand>::empty());
}

} // verus!
