//! The editing modes. Each mode translates a key code into an action and
//! never touches the document itself.

use vstd::prelude::*;
use crate::editor_action::{ActionView, EditorAction};
use crate::editor_model::EditorMode;
use crate::modes::command_mode::CommandMode;
use crate::modes::insert_mode::InsertMode;
use crate::modes::normal_mode::NormalMode;

pub mod command_mode;
pub mod insert_mode;
pub mod normal_mode;

verus! {

/// The active mode as a value: which of the three modes it is, with what
/// that mode has buffered.
pub enum ModeView {
    Normal(normal_mode::NormalState),
    Insert,
    /// The command typed so far.
    Command(Seq<char>),
}

/// What a key means in a mode: the action it stands for, and the mode as
/// it is after the key.
pub open spec fn mode_step(mode: ModeView, ch: u32) -> (ActionView, ModeView) {
    match mode {
        ModeView::Normal(s) => {
            let (action, next) = normal_mode::normal_step(s, ch);
            (action, ModeView::Normal(next))
        },
        ModeView::Insert => (insert_mode::insert_action(ch), ModeView::Insert),
        ModeView::Command(command) => {
            let (action, next) = command_mode::command_step(command, ch);
            (action, ModeView::Command(next))
        },
    }
}

/// The text that describes a mode on the status line.
pub open spec fn mode_description(mode: ModeView) -> Seq<char> {
    match mode {
        ModeView::Normal(s) => if s.is_buffering {
            "Normal Mode (buffering)"@
        } else {
            "Normal Mode"@
        },
        ModeView::Insert => "Insert Mode"@,
        ModeView::Command(command) => "Command: "@ + command,
    }
}

/// The active mode: exactly one of the three.
pub enum Mode {
    Normal(NormalMode),
    Insert(InsertMode),
    Command(CommandMode),
}

impl EditorMode for Mode {
    open spec fn state(&self) -> ModeView {
        match self {
            Mode::Normal(mode) => mode.state(),
            Mode::Insert(mode) => mode.state(),
            Mode::Command(mode) => mode.state(),
        }
    }

    fn key_tapped(&mut self, ch: u32) -> (action: EditorAction) {
        match self {
            Mode::Normal(mode) => mode.key_tapped(ch),
            Mode::Insert(mode) => mode.key_tapped(ch),
            Mode::Command(mode) => mode.key_tapped(ch),
        }
    }

    fn get_description(&self) -> (r: String) {
        match self {
            Mode::Normal(mode) => mode.get_description(),
            Mode::Insert(mode) => mode.get_description(),
            Mode::Command(mode) => mode.get_description(),
        }
    }
}

} // verus!
