//! Insert mode: keys are typed into the document.

use vstd::prelude::*;
use vstd::string::*;
use crate::editor_action::{ActionView, EditorAction};
use crate::editor_model::EditorMode;
use crate::keys::{BACKSPACE, DOWN, ENTER, ESCAPE, LEFT, RIGHT, UP};
use crate::modes::ModeView;

verus! {

/// Insert mode. It keeps nothing between two keys.
pub struct InsertMode {}

/// The action that a key stands for in insert mode: the arrows move the
/// cursor by one step, Enter breaks the line, Backspace deletes the
/// character before the cursor, Escape leaves for normal mode, and any
/// other key inserts itself.
pub open spec fn insert_action(ch: u32) -> ActionView {
    if ch == DOWN {
        ActionView::MoveCursor { dx: 0, dy: -1i32 }
    } else if ch == UP {
        ActionView::MoveCursor { dx: 0, dy: 1 }
    } else if ch == LEFT {
        ActionView::MoveCursor { dx: -1i32, dy: 0 }
    } else if ch == RIGHT {
        ActionView::MoveCursor { dx: 1, dy: 0 }
    } else if ch == ENTER {
        ActionView::JumpLineAtCursor
    } else if ch == BACKSPACE {
        ActionView::DeleteCharAtCursor
    } else if ch == ESCAPE {
        ActionView::SwitchToNormalMode
    } else {
        ActionView::AddCharAtCursor { ch }
    }
}

impl EditorMode for InsertMode {
    open spec fn state(&self) -> ModeView {
        ModeView::Insert
    }

    fn key_tapped(&mut self, ch: u32) -> (action: EditorAction) {
        if ch == DOWN {
            EditorAction::MoveCursor { dx: 0, dy: -1 }
        } else if ch == UP {
            EditorAction::MoveCursor { dx: 0, dy: 1 }
        } else if ch == LEFT {
            EditorAction::MoveCursor { dx: -1, dy: 0 }
        } else if ch == RIGHT {
            EditorAction::MoveCursor { dx: 1, dy: 0 }
        } else if ch == ENTER {
            EditorAction::JumpLineAtCursor
        } else if ch == BACKSPACE {
            EditorAction::DeleteCharAtCursor
        } else if ch == ESCAPE {
            EditorAction::SwitchToNormalMode
        } else {
            EditorAction::AddCharAtCursor { ch }
        }
    }

    fn get_description(&self) -> (r: String) {
        String::from_str("Insert Mode")
    }
}

} // verus!
