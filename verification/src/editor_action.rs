//! The actions through which the modes speak to the engine.

use vstd::prelude::*;
use crate::motion::Motion;

verus! {

/// A change to apply to the model.
///
/// Each mode translates a key into one of these, and the engine applies it.
#[derive(Debug)]
pub enum EditorAction {
    /// Add a character at the current cursor position
    AddCharAtCursor { ch: u32 },
    /// Delete the character before the cursor
    DeleteCharAtCursor,
    /// Break the line at the current cursor position
    JumpLineAtCursor,
    /// Move the cursor to the beginning of the next line
    MoveCursorDown,
    /// Move the cursor one step in the given direction
    MoveCursor { dx: i32, dy: i32 },
    /// Move by a number of words. Can be negative
    MoveByWords { n_words: i32 },
    /// Move the cursor to where the motion leads
    ApplyMotion { motion: Motion },
    SwitchToInsertMode,
    SwitchToNormalMode,
    SwitchToCommandMode,
    /// Toggle the selection mode: ON or OFF
    ToggleSelectionState,
    /// Yank the current selection (if there is one)
    Yank,
    /// Put the text yanked last
    Put,
    /// Called when the escape key is pressed
    AbortCurrentAction,
    /// Ask for the document to be saved
    Save,
    /// Ask for the program to end
    Exit,
    /// A list of actions to execute in order
    CompositeAction { actions: Vec<EditorAction> },
    /// Jump the cursor to the given line
    JumpToLine { line: usize },
    /// Undo the action recorded last
    Undo,
    /// Do nothing
    NoOp,
}

/// An action as a mathematical value: the same variants, with the parts of
/// a composite action as a sequence.
pub enum ActionView {
    AddCharAtCursor { ch: u32 },
    DeleteCharAtCursor,
    JumpLineAtCursor,
    MoveCursorDown,
    MoveCursor { dx: i32, dy: i32 },
    MoveByWords { n_words: i32 },
    ApplyMotion { motion: Motion },
    SwitchToInsertMode,
    SwitchToNormalMode,
    SwitchToCommandMode,
    ToggleSelectionState,
    Yank,
    Put,
    AbortCurrentAction,
    Save,
    Exit,
    CompositeAction { actions: Seq<ActionView> },
    JumpToLine { line: usize },
    Undo,
    NoOp,
}

impl ActionView {
    /// The action is recorded in the undo history when it is applied:
    /// inserting or deleting a character, breaking a line, and any composite
    /// action, which is recorded as one unit.
    pub open spec fn undoable(self) -> bool {
        match self {
            ActionView::AddCharAtCursor { .. } => true,
            ActionView::DeleteCharAtCursor => true,
            ActionView::JumpLineAtCursor => true,
            ActionView::MoveCursorDown => false,
            ActionView::MoveCursor { .. } => false,
            ActionView::MoveByWords { .. } => false,
            ActionView::ApplyMotion { .. } => false,
            ActionView::SwitchToInsertMode => false,
            ActionView::SwitchToNormalMode => false,
            ActionView::SwitchToCommandMode => false,
            ActionView::ToggleSelectionState => false,
            ActionView::Yank => false,
            ActionView::Put => false,
            ActionView::AbortCurrentAction => false,
            ActionView::Save => false,
            ActionView::Exit => false,
            ActionView::CompositeAction { .. } => true,
            ActionView::JumpToLine { .. } => false,
            ActionView::Undo => false,
            ActionView::NoOp => false,
        }
    }

    /// The action that undoes this one. Only the insertion of a character
    /// has an inverse, the deletion of the character before the cursor;
    /// every other action is undone by doing nothing.
    pub open spec fn inverse(self) -> ActionView {
        match self {
            ActionView::AddCharAtCursor { .. } => ActionView::DeleteCharAtCursor,
            ActionView::DeleteCharAtCursor => ActionView::NoOp,
            ActionView::JumpLineAtCursor => ActionView::NoOp,
            ActionView::MoveCursorDown => ActionView::NoOp,
            ActionView::MoveCursor { .. } => ActionView::NoOp,
            ActionView::MoveByWords { .. } => ActionView::NoOp,
            ActionView::ApplyMotion { .. } => ActionView::NoOp,
            ActionView::SwitchToInsertMode => ActionView::NoOp,
            ActionView::SwitchToNormalMode => ActionView::NoOp,
            ActionView::SwitchToCommandMode => ActionView::NoOp,
            ActionView::ToggleSelectionState => ActionView::NoOp,
            ActionView::Yank => ActionView::NoOp,
            ActionView::Put => ActionView::NoOp,
            ActionView::AbortCurrentAction => ActionView::NoOp,
            ActionView::Save => ActionView::NoOp,
            ActionView::Exit => ActionView::NoOp,
            ActionView::CompositeAction { .. } => ActionView::NoOp,
            ActionView::JumpToLine { .. } => ActionView::NoOp,
            ActionView::Undo => ActionView::NoOp,
            ActionView::NoOp => ActionView::NoOp,
        }
    }
}

/// The action as a mathematical value.
pub open spec fn action_view(action: EditorAction) -> ActionView
    decreases action,
{
    match action {
        EditorAction::AddCharAtCursor { ch } => ActionView::AddCharAtCursor { ch },
        EditorAction::DeleteCharAtCursor => ActionView::DeleteCharAtCursor,
        EditorAction::JumpLineAtCursor => ActionView::JumpLineAtCursor,
        EditorAction::MoveCursorDown => ActionView::MoveCursorDown,
        EditorAction::MoveCursor { dx, dy } => ActionView::MoveCursor { dx, dy },
        EditorAction::MoveByWords { n_words } => ActionView::MoveByWords { n_words },
        EditorAction::ApplyMotion { motion } => ActionView::ApplyMotion { motion },
        EditorAction::SwitchToInsertMode => ActionView::SwitchToInsertMode,
        EditorAction::SwitchToNormalMode => ActionView::SwitchToNormalMode,
        EditorAction::SwitchToCommandMode => ActionView::SwitchToCommandMode,
        EditorAction::ToggleSelectionState => ActionView::ToggleSelectionState,
        EditorAction::Yank => ActionView::Yank,
        EditorAction::Put => ActionView::Put,
        EditorAction::AbortCurrentAction => ActionView::AbortCurrentAction,
        EditorAction::Save => ActionView::Save,
        EditorAction::Exit => ActionView::Exit,
        EditorAction::CompositeAction { actions } => ActionView::CompositeAction {
            actions: Seq::new(
                actions@.len(),
                |i: int|
                    if 0 <= i < actions@.len() {
                        action_view(actions@[i])
                    } else {
                        ActionView::NoOp
                    },
            ),
        },
        EditorAction::JumpToLine { line } => ActionView::JumpToLine { line },
        EditorAction::Undo => ActionView::Undo,
        EditorAction::NoOp => ActionView::NoOp,
    }
}

impl View for EditorAction {
    type V = ActionView;

    open spec fn view(&self) -> ActionView {
        action_view(*self)
    }
}

impl Clone for EditorAction {
    /// A copy of the action, with a copy of every part of a composite one.
    fn clone(&self) -> (r: EditorAction)
        ensures
            r@ == self@,
        decreases self,
    {
        match self {
            EditorAction::AddCharAtCursor { ch } => EditorAction::AddCharAtCursor { ch: *ch },
            EditorAction::DeleteCharAtCursor => EditorAction::DeleteCharAtCursor,
            EditorAction::JumpLineAtCursor => EditorAction::JumpLineAtCursor,
            EditorAction::MoveCursorDown => EditorAction::MoveCursorDown,
            EditorAction::MoveCursor { dx, dy } => EditorAction::MoveCursor { dx: *dx, dy: *dy },
            EditorAction::MoveByWords { n_words } => EditorAction::MoveByWords {
                n_words: *n_words,
            },
            EditorAction::ApplyMotion { motion } => EditorAction::ApplyMotion { motion: *motion },
            EditorAction::SwitchToInsertMode => EditorAction::SwitchToInsertMode,
            EditorAction::SwitchToNormalMode => EditorAction::SwitchToNormalMode,
            EditorAction::SwitchToCommandMode => EditorAction::SwitchToCommandMode,
            EditorAction::ToggleSelectionState => EditorAction::ToggleSelectionState,
            EditorAction::Yank => EditorAction::Yank,
            EditorAction::Put => EditorAction::Put,
            EditorAction::AbortCurrentAction => EditorAction::AbortCurrentAction,
            EditorAction::Save => EditorAction::Save,
            EditorAction::Exit => EditorAction::Exit,
            EditorAction::CompositeAction { actions } => {
                let mut copies: Vec<EditorAction> = Vec::new();
                let mut i: usize = 0;
                while i < actions.len()
                    invariant
                        i <= actions.len(),
                        copies@.len() == i,
                        self is CompositeAction,
                        self->actions == *actions,
                        forall|k: int| 0 <= k < i ==> copies@[k]@ == actions@[k]@,
                    decreases actions.len() - i,
                {
                    let c = actions[i].clone();
                    copies.push(c);
                    i += 1;
                }
                let r = EditorAction::CompositeAction { actions: copies };
                assert(r@->actions =~= self@->actions);
                r
            },
            EditorAction::JumpToLine { line } => EditorAction::JumpToLine { line: *line },
            EditorAction::Undo => EditorAction::Undo,
            EditorAction::NoOp => EditorAction::NoOp,
        }
    }
}

/// The actions of a list as mathematical values.
pub open spec fn action_views(actions: Seq<EditorAction>) -> Seq<ActionView> {
    Seq::new(actions.len(), |i: int| actions[i]@)
}

impl EditorAction {
    /// The composite action that executes `actions` in order.
    pub fn composite(actions: Vec<EditorAction>) -> (r: EditorAction)
        ensures
            r@ == (ActionView::CompositeAction { actions: action_views(actions@) }),
    {
        let r = EditorAction::CompositeAction { actions };
        assert(r@->actions =~= action_views(actions@));
        r
    }

    /// Returns true if this action is recorded in the undo history.
    pub fn can_be_undo(&self) -> (r: bool)
        ensures
            r == self@.undoable(),
    {
        match self {
            EditorAction::AddCharAtCursor { .. } => true,
            EditorAction::DeleteCharAtCursor => true,
            EditorAction::JumpLineAtCursor => true,
            EditorAction::MoveCursorDown => false,
            EditorAction::MoveCursor { .. } => false,
            EditorAction::MoveByWords { .. } => false,
            EditorAction::ApplyMotion { .. } => false,
            EditorAction::SwitchToInsertMode => false,
            EditorAction::SwitchToNormalMode => false,
            EditorAction::SwitchToCommandMode => false,
            EditorAction::ToggleSelectionState => false,
            EditorAction::Yank => false,
            EditorAction::Put => false,
            EditorAction::AbortCurrentAction => false,
            EditorAction::Save => false,
            EditorAction::Exit => false,
            EditorAction::CompositeAction { .. } => true,
            EditorAction::JumpToLine { .. } => false,
            EditorAction::Undo => false,
            EditorAction::NoOp => false,
        }
    }

    /// The action that undoes this one.
    pub fn undo_action(&self) -> (r: EditorAction)
        ensures
            r@ == self@.inverse(),
    {
        match self {
            EditorAction::AddCharAtCursor { .. } => EditorAction::DeleteCharAtCursor,
            EditorAction::DeleteCharAtCursor => EditorAction::NoOp,
            EditorAction::JumpLineAtCursor => EditorAction::NoOp,
            EditorAction::MoveCursorDown => EditorAction::NoOp,
            EditorAction::MoveCursor { .. } => EditorAction::NoOp,
            EditorAction::MoveByWords { .. } => EditorAction::NoOp,
            EditorAction::ApplyMotion { .. } => EditorAction::NoOp,
            EditorAction::SwitchToInsertMode => EditorAction::NoOp,
            EditorAction::SwitchToNormalMode => EditorAction::NoOp,
            EditorAction::SwitchToCommandMode => EditorAction::NoOp,
            EditorAction::ToggleSelectionState => EditorAction::NoOp,
            EditorAction::Yank => EditorAction::NoOp,
            EditorAction::Put => EditorAction::NoOp,
            EditorAction::AbortCurrentAction => EditorAction::NoOp,
            EditorAction::Save => EditorAction::NoOp,
            EditorAction::Exit => EditorAction::NoOp,
            EditorAction::CompositeAction { .. } => EditorAction::NoOp,
            EditorAction::JumpToLine { .. } => EditorAction::NoOp,
            EditorAction::Undo => EditorAction::NoOp,
            EditorAction::NoOp => EditorAction::NoOp,
        }
    }
}

} // verus!
