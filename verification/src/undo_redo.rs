//! The undo history: a flat list of recorded actions.

use std::collections::VecDeque;
use vstd::prelude::*;
use crate::cursor::Cursor;
use crate::editor_action::{ActionView, EditorAction};

verus! {

/// One entry of the history: the recorded action and the position that the
/// cursor is put back to before the action is undone.
#[derive(Debug)]
struct UndoRedoContext {
    action: EditorAction,
    cursor: Cursor,
}

/// The undo history. Entries are appended at the end and undone from the
/// end; an entry that was undone is gone.
pub struct UndoRedoManager {
    /// The buffer keeps track of the actions
    buffer: VecDeque<UndoRedoContext>,
}

impl View for UndoRedoManager {
    type V = Seq<(ActionView, Cursor)>;

    /// The recorded entries, oldest first.
    closed spec fn view(&self) -> Seq<(ActionView, Cursor)> {
        Seq::new(
            self.buffer@.len(),
            |i: int| (self.buffer@[i].action@, self.buffer@[i].cursor),
        )
    }
}

impl UndoRedoManager {
    /// An empty history.
    pub fn new() -> (r: Self)
        ensures
            r@ == Seq::<(ActionView, Cursor)>::empty(),
    {
        let r = Self { buffer: VecDeque::new() };
        r
    }

    /// Records an action so that it can be undone later on. Only undoable
    /// actions are recorded. The entry holds the position one column to the
    /// right of `cursor`, which is where the cursor stands once a character
    /// has been inserted at `cursor`.
    pub fn add_action(&mut self, action: EditorAction, cursor: Cursor)
        ensures
            final(self)@ == if action@.undoable() {
                old(self)@.push((action@, cursor.next_column()))
            } else {
                old(self)@
            },
    {
        if action.can_be_undo() {
            let x = if cursor.x < usize::MAX {
                cursor.x + 1
            } else {
                cursor.x
            };
            self.buffer.push_back(UndoRedoContext { action, cursor: Cursor { x, y: cursor.y } });
        }
    }

    /// Takes the entry recorded last out of the history and returns the
    /// action that undoes it, with the recorded position. Returns `None`,
    /// and leaves the history as it is, when the history is empty.
    pub fn undo(&mut self) -> (r: Option<(EditorAction, Cursor)>)
        ensures
            old(self)@.len() == 0 ==> r is None && final(self)@ == old(self)@,
            old(self)@.len() > 0 ==> {
                &&& r matches Some((action, cursor))
                &&& action@ == old(self)@.last().0.inverse()
                &&& cursor == old(self)@.last().1
                &&& final(self)@ == old(self)@.drop_last()
            },
    {
        if let Some(to_redo) = self.buffer.pop_back() {
            Some((to_redo.action.undo_action(), to_redo.cursor))
        } else {
            None
        }
    }
}

} // verus!
