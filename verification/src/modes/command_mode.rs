//! Command mode: a line is typed and, on Enter, read as a command.

use vstd::prelude::*;
use vstd::string::*;
use crate::editor_action::{action_views, ActionView, EditorAction};
use crate::editor_model::EditorMode;
use crate::keys::{scalar, BACKSPACE, ENTER, ESCAPE};
use crate::modes::ModeView;
use crate::text::{char_count, slice, text_is};

verus! {

/// Command mode, with the command typed so far.
pub struct CommandMode {
    /// In typing command, all the characters are collected in a buffer
    command: String,
}

impl View for CommandMode {
    type V = Seq<char>;

    /// The command typed so far.
    closed spec fn view(&self) -> Seq<char> {
        self.command@
    }
}

/// The parts of the action that saves the document and goes back to
/// normal mode.
pub open spec fn save_and_return() -> Seq<ActionView> {
    seq![ActionView::Save, ActionView::SwitchToNormalMode]
}

/// The parts of the action that saves the document and ends the program.
pub open spec fn save_and_exit() -> Seq<ActionView> {
    seq![ActionView::Save, ActionView::Exit]
}

/// What Enter does with the typed command: `w` saves and goes back to
/// normal mode, `q` ends the program, `wq` and `x` save and end the
/// program. These leave the typed command as it is. Anything else is
/// dropped: the typed command is cleared and the editor goes back to
/// normal mode.
pub open spec fn run_command(command: Seq<char>) -> (ActionView, Seq<char>) {
    if command == "w"@ {
        (ActionView::CompositeAction { actions: save_and_return() }, command)
    } else if command == "q"@ {
        (ActionView::Exit, command)
    } else if command == "wq"@ || command == "x"@ {
        (ActionView::CompositeAction { actions: save_and_exit() }, command)
    } else {
        (ActionView::SwitchToNormalMode, Seq::<char>::empty())
    }
}

/// The typed command without its last character, if it has one.
pub open spec fn without_last(command: Seq<char>) -> Seq<char> {
    if command.len() > 0 {
        command.drop_last()
    } else {
        command
    }
}

/// What a key does in command mode, as the action it stands for and the
/// typed command after the key: Enter runs the command, Backspace takes
/// the last character away, Escape does nothing, and any other key that
/// is a character is added to the command. Only Enter gives an action.
pub open spec fn command_step(command: Seq<char>, ch: u32) -> (ActionView, Seq<char>) {
    if ch == ENTER {
        run_command(command)
    } else if ch == BACKSPACE {
        (ActionView::NoOp, without_last(command))
    } else if ch == ESCAPE {
        (ActionView::NoOp, command)
    } else {
        match scalar(ch) {
            Some(c) => (ActionView::NoOp, command.push(c)),
            None => (ActionView::NoOp, command),
        }
    }
}

impl CommandMode {
    /// Reads the typed command.
    fn enter_key_pressed(&mut self) -> (action: EditorAction)
        ensures
            (action@, final(self)@) == run_command(old(self)@),
    {
        // Match the final command
        if text_is(&self.command, "w") {
            let actions = vec![EditorAction::Save, EditorAction::SwitchToNormalMode];
            assert(action_views(actions@) =~= save_and_return());
            return EditorAction::composite(actions);
        }
        if text_is(&self.command, "q") {
            return EditorAction::Exit;
        }
        if text_is(&self.command, "wq") || text_is(&self.command, "x") {
            let actions = vec![EditorAction::Save, EditorAction::Exit];
            assert(action_views(actions@) =~= save_and_exit());
            return EditorAction::composite(actions);
        }
        // Reset the command
        self.command = String::new();
        EditorAction::SwitchToNormalMode
    }

    /// Takes the last character of the typed command away.
    fn backspace_key_pressed(&mut self) -> (action: EditorAction)
        ensures
            action@ == ActionView::NoOp,
            final(self)@ == without_last(old(self)@),
    {
        let n = char_count(&self.command);
        if n > 0 {
            self.command = slice(&self.command, 0, n - 1);
        }
        EditorAction::NoOp
    }

    /// Does nothing: Escape neither clears the typed command nor leaves
    /// the mode.
    fn escape_key_pressed(&mut self) -> (action: EditorAction)
        ensures
            action@ == ActionView::NoOp,
            final(self)@ == old(self)@,
    {
        EditorAction::NoOp
    }

    /// The mode with nothing typed yet.
    pub fn new() -> (r: Self)
        ensures
            r@ == Seq::<char>::empty(),
    {
        Self { command: String::new() }
    }
}

impl EditorMode for CommandMode {
    open spec fn state(&self) -> ModeView {
        ModeView::Command(self@)
    }

    fn key_tapped(&mut self, ch: u32) -> (action: EditorAction) {
        if ch == ENTER {
            self.enter_key_pressed()
        } else if ch == BACKSPACE {
            self.backspace_key_pressed()
        } else if ch == ESCAPE {
            self.escape_key_pressed()
        } else {
            if let Some(c) = char::from_u32(ch) {
                self.command.push(c);
            }
            EditorAction::NoOp
        }
    }

    fn get_description(&self) -> (r: String) {
        let mut r = String::from_str("Command: ");
        r.append(self.command.as_str());
        r
    }
}

} // verus!
