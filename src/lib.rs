//! A raw-mode typing canvas: keystrokes are drawn on a character grid with a
//! cycling background color, while a small overlay panel shows internal state.
//!
//! The library decides what each input event does and which terminal text it
//! produces; the program around it reads events and writes that text.

pub mod ansi;
pub mod canvas;
pub mod overlay;
pub mod session;
pub mod text;

pub use ansi::Shade;
pub use canvas::{
    process_event, render_cell, step, Canvas, CanvasState, Cell, Flow, InputEvent, Key, Step,
    StepError,
};
pub use overlay::DebugPrinter;
pub use session::{enter_commands, exit_commands, Point, SessionCommand, TerminalModes};
