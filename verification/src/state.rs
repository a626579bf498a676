//! The engine as a mathematical value, and what each action makes of it.
//!
//! Everything the engine does is stated here once, as a function from a
//! state to the next state. The engine's own functions are proved to
//! compute exactly these.

use vstd::prelude::*;
use crate::cursor::Cursor;
use crate::document::{
    char_inserted, char_removed, joined, line_broken, line_joined, span_text, text_put,
};
use crate::editor_action::ActionView;
use crate::keys::{is_scalar, scalar, DOWN, ESCAPE, LEFT, RIGHT, UP};
use crate::modes::insert_mode::insert_action;
use crate::modes::normal_mode::{replace_steps, NormalState};
use crate::modes::{mode_description, mode_step, ModeView};
use crate::motion::{in_bounds, lemma_target_in_bounds, Motion};
use crate::screen::Screen;
use crate::selection::Selection;
use crate::text::spliced;

verus! {

/// All that the engine holds.
pub struct EditorState {
    /// The name under which the document is saved.
    pub filename: Seq<char>,
    pub cursor: Cursor,
    pub screen: Screen,
    /// The lines of the document.
    pub lines: Seq<Seq<char>>,
    /// The active mode, with what it has buffered.
    pub mode: ModeView,
    /// The text yanked last, if any.
    pub register: Option<Seq<char>>,
    /// The selection, while one is open.
    pub selection: Option<Selection>,
    /// The undo history, oldest entry first: each recorded action with
    /// the position that the cursor is put back to when it is undone.
    pub history: Seq<(ActionView, Cursor)>,
    /// The text of a save that was asked for and not taken yet.
    pub save_request: Option<Seq<char>>,
    /// The end of the program was asked for. From then on the engine
    /// ignores every key and every action.
    pub exit_requested: bool,
}

/// Normal mode as it is entered: nothing buffered.
pub open spec fn fresh_normal_mode() -> ModeView {
    ModeView::Normal(
        NormalState { is_buffering: false, buffering_mode: None, buffer: Seq::empty() },
    )
}

/// The leading text of the status line.
pub open spec fn status_help() -> Seq<char> {
    "   Press F1 to quit"@
}

/// What separates the parts of the status line.
pub open spec fn status_separator() -> Seq<char> {
    "  |  "@
}

impl EditorState {
    /// The state is well formed: the document has at least one line, and
    /// the cursor stands on one of its lines, at an offset between the
    /// start of that line and its end, both included.
    pub open spec fn wf(self) -> bool {
        self.lines.len() > 0 && in_bounds(self.lines, self.cursor)
    }

    /// The line that the cursor is on.
    pub open spec fn current_line(self) -> Seq<char> {
        self.lines[self.cursor.y as int]
    }

    /// The state after the cursor was set to `c`: an open selection
    /// follows the cursor with its end. Every change of the cursor goes
    /// through here.
    pub open spec fn with_cursor(self, c: Cursor) -> EditorState {
        EditorState {
            cursor: c,
            selection: match self.selection {
                Some(sel) => Some(sel.with_end(c)),
                None => None,
            },
            ..self
        }
    }

    /// The position `c` with its column brought back onto the last
    /// character of its line, or to column 0 on an empty line.
    pub open spec fn fitted(self, c: Cursor) -> Cursor {
        let n = self.lines[c.y as int].len();
        if n > 0 && c.x > n - 1 {
            Cursor { x: (n - 1) as usize, y: c.y }
        } else if n == 0 {
            Cursor { x: 0, y: c.y }
        } else {
            c
        }
    }

    /// The position `c` brought back into the document: onto the last
    /// line if it lies below it, and then onto the end of its line if it
    /// lies beyond it.
    pub open spec fn clamped(self, c: Cursor) -> Cursor {
        let y = if c.y < self.lines.len() {
            c.y
        } else {
            (self.lines.len() - 1) as usize
        };
        let n = self.lines[y as int].len();
        Cursor {
            x: if c.x <= n {
                c.x
            } else {
                n as usize
            },
            y,
        }
    }

    /// One step to the left; nothing at the start of the line.
    pub open spec fn moved_left(self) -> EditorState {
        if self.cursor.x > 0 {
            self.with_cursor(Cursor { x: (self.cursor.x - 1) as usize, y: self.cursor.y })
        } else {
            self
        }
    }

    /// One step to the right, at most onto the end of the line.
    pub open spec fn moved_right(self) -> EditorState {
        if self.cursor.x < self.current_line().len() {
            self.with_cursor(Cursor { x: (self.cursor.x + 1) as usize, y: self.cursor.y })
        } else {
            self
        }
    }

    /// One line up, with the column fitted to the new line; nothing on
    /// the first line. The screen scrolls along.
    pub open spec fn moved_up(self) -> EditorState {
        if self.cursor.y > 0 {
            (EditorState { screen: self.screen.scrolled_up(self.cursor.y as int), ..self })
                .with_cursor(
                self.fitted(Cursor { x: self.cursor.x, y: (self.cursor.y - 1) as usize }),
            )
        } else {
            self
        }
    }

    /// One line down, with the column fitted to the new line; nothing on
    /// the last line. The screen scrolls along.
    pub open spec fn moved_down(self) -> EditorState {
        if self.cursor.y + 1 < self.lines.len() {
            (EditorState { screen: self.screen.scrolled_down(self.cursor.y as int), ..self })
                .with_cursor(
                self.fitted(Cursor { x: self.cursor.x, y: (self.cursor.y + 1) as usize }),
            )
        } else {
            self
        }
    }

    /// To the start of the next line; nothing on the last line.
    pub open spec fn moved_to_next_line(self) -> EditorState {
        if self.cursor.y + 1 < self.lines.len() {
            self.with_cursor(Cursor { x: 0, y: (self.cursor.y + 1) as usize })
        } else {
            self
        }
    }

    /// One step in the direction `(dx, dy)`: `(1, 0)` is right, `(-1, 0)`
    /// left, `(0, 1)` up and `(0, -1)` down. Any other pair does nothing.
    pub open spec fn moved(self, dx: i32, dy: i32) -> EditorState {
        if dx == 1 && dy == 0 {
            self.moved_right()
        } else if dx == -1 && dy == 0 {
            self.moved_left()
        } else if dx == 0 && dy == 1 {
            self.moved_up()
        } else if dx == 0 && dy == -1 {
            self.moved_down()
        } else {
            self
        }
    }

    /// The cursor moved to where `motion` leads.
    pub open spec fn moved_by(self, motion: Motion) -> EditorState {
        let target = motion.target(self.lines, self.cursor);
        self.with_cursor(Cursor { x: target.0 as usize, y: target.1 as usize })
    }

    /// The character with code `ch` inserted at the cursor, which then
    /// stands after it. A code that is no character changes nothing.
    pub open spec fn char_added(self, ch: u32) -> EditorState {
        match scalar(ch) {
            Some(c) => (EditorState {
                lines: char_inserted(self.lines, self.cursor, c),
                ..self
            }).with_cursor(self.cursor.next_column()),
            None => self,
        }
    }

    /// The character before the cursor deleted. At the start of a line the
    /// line is joined to the one above it, and the cursor stands where the
    /// two were joined. Nothing at the start of the document.
    pub open spec fn char_deleted(self) -> EditorState {
        if self.cursor.x > 0 {
            let at = Cursor { x: (self.cursor.x - 1) as usize, y: self.cursor.y };
            (EditorState { lines: char_removed(self.lines, at), ..self }).with_cursor(at)
        } else if self.cursor.y > 0 {
            (EditorState { lines: line_joined(self.lines, self.cursor.y as int), ..self })
                .with_cursor(
                Cursor {
                    x: self.lines[self.cursor.y - 1].len() as usize,
                    y: (self.cursor.y - 1) as usize,
                },
            )
        } else {
            self
        }
    }

    /// The line broken at the cursor. The cursor then moves down as by a
    /// step down, and ends at the start of the new line.
    pub open spec fn line_split(self) -> EditorState {
        let below = (EditorState { lines: line_broken(self.lines, self.cursor), ..self })
            .moved_down();
        below.with_cursor(Cursor { x: 0, y: below.cursor.y })
    }

    /// A selection opened at the cursor if none is open, and the open one
    /// closed otherwise.
    pub open spec fn selection_toggled(self) -> EditorState {
        EditorState {
            selection: match self.selection {
                Some(_) => None,
                None => Some(Selection { start: self.cursor, end: self.cursor }),
            },
            ..self
        }
    }

    /// The text of the open selection stored in the register, and the
    /// selection closed. Nothing if no selection is open.
    pub open spec fn yanked(self) -> EditorState {
        match self.selection {
            Some(sel) => EditorState {
                register: Some(span_text(self.lines, sel.lower(), sel.upper())),
                selection: None,
                ..self
            },
            None => self,
        }
    }

    /// The text of the register inserted at the cursor, which stays where
    /// it is. Nothing if the register holds nothing.
    pub open spec fn put(self) -> EditorState {
        match self.register {
            Some(text) => EditorState { lines: text_put(self.lines, self.cursor, text), ..self },
            None => self,
        }
    }

    /// The cursor put at the start of line `line`. A number up to the
    /// number of lines is taken, and a number that names no line stands
    /// for the last line; a larger number does nothing.
    pub open spec fn jumped(self, line: usize) -> EditorState {
        if line <= self.lines.len() {
            self.with_cursor(
                Cursor {
                    x: 0,
                    y: if line < self.lines.len() {
                        line
                    } else {
                        (self.lines.len() - 1) as usize
                    },
                },
            )
        } else {
            self
        }
    }

    /// A save asked for: the text to save is the document as it is now.
    pub open spec fn save_asked(self) -> EditorState {
        EditorState { save_request: Some(joined(self.lines)), ..self }
    }

    /// What an action that has no parts and is not an undo does. A
    /// composite action and an undo are left to [`apply_action`].
    pub open spec fn apply_basic(self, action: ActionView) -> EditorState {
        match action {
            ActionView::AddCharAtCursor { ch } => self.char_added(ch),
            ActionView::DeleteCharAtCursor => self.char_deleted(),
            ActionView::JumpLineAtCursor => self.line_split(),
            ActionView::MoveCursorDown => self.moved_to_next_line(),
            ActionView::MoveCursor { dx, dy } => self.moved(dx, dy),
            ActionView::MoveByWords { n_words } => self.moved_by(Motion::Words { n_words }),
            ActionView::ApplyMotion { motion } => self.moved_by(motion),
            ActionView::SwitchToInsertMode => EditorState { mode: ModeView::Insert, ..self },
            ActionView::SwitchToNormalMode => EditorState { mode: fresh_normal_mode(), ..self },
            ActionView::SwitchToCommandMode => EditorState {
                mode: ModeView::Command(Seq::empty()),
                ..self
            },
            ActionView::ToggleSelectionState => self.selection_toggled(),
            ActionView::Yank => self.yanked(),
            ActionView::Put => self.put(),
            ActionView::AbortCurrentAction => EditorState { selection: None, ..self },
            ActionView::Save => self.save_asked(),
            ActionView::Exit => EditorState { exit_requested: true, ..self },
            ActionView::CompositeAction { .. } => self,
            ActionView::JumpToLine { line } => self.jumped(line),
            ActionView::Undo => self,
            ActionView::NoOp => self,
        }
    }

    /// The action recorded in the history if it is undoable and is not
    /// itself applied to undo another.
    pub open spec fn recorded(self, action: ActionView, is_undo: bool) -> EditorState {
        if !is_undo && action.undoable() {
            EditorState {
                history: self.history.push((action, self.cursor.next_column())),
                ..self
            }
        } else {
            self
        }
    }

    /// The entry recorded last taken out of the history and undone: the
    /// cursor is put back to the recorded position, brought back into the
    /// document, and the inverse of the recorded action is applied.
    /// Nothing if the history is empty.
    pub open spec fn undone(self) -> EditorState {
        if self.history.len() == 0 {
            self
        } else {
            let entry = self.history.last();
            (EditorState { history: self.history.drop_last(), ..self }).with_cursor(
                self.clamped(entry.1),
            ).apply_basic(entry.0.inverse())
        }
    }

    /// The status line: the help text, what the mode says of itself, and
    /// whether a selection is open.
    pub open spec fn status(self) -> Seq<char> {
        status_help() + status_separator() + mode_description(self.mode) + status_separator() + (
        if self.selection is Some {
            "selecting"@
        } else {
            Seq::empty()
        })
    }
}

/// What applying an action makes of a state.
///
/// Once the end of the program was asked for, nothing is applied any more.
/// Otherwise the action is first recorded, if it is to be, and then
/// applied. A composite action applies its parts in order, each with the
/// same `is_undo`, so that the parts are recorded too, after the whole.
pub open spec fn apply_action(s: EditorState, action: ActionView, is_undo: bool) -> EditorState
    decreases action, 0nat,
{
    if s.exit_requested {
        s
    } else {
        let r = s.recorded(action, is_undo);
        match action {
            ActionView::CompositeAction { actions } => apply_prefix(
                r,
                actions,
                actions.len(),
                is_undo,
            ),
            ActionView::Undo => r.undone(),
            _ => r.apply_basic(action),
        }
    }
}

/// What applying the first `n` of `actions`, in order, makes of a state.
pub open spec fn apply_prefix(
    s: EditorState,
    actions: Seq<ActionView>,
    n: nat,
    is_undo: bool,
) -> EditorState
    decreases actions, n,
{
    if n == 0 || n > actions.len() {
        s
    } else {
        apply_action(
            apply_prefix(s, actions, (n - 1) as nat, is_undo),
            actions[n - 1],
            is_undo,
        )
    }
}

/// What a key makes of a state: the active mode translates the key into
/// an action, which is then applied. Nothing once the end of the program
/// was asked for.
pub open spec fn key_step(s: EditorState, ch: u32) -> EditorState {
    if s.exit_requested {
        s
    } else {
        let (action, mode) = mode_step(s.mode, ch);
        apply_action(EditorState { mode, ..s }, action, false)
    }
}

/// What a sequence of keys, pressed one after the other, makes of a state.
pub open spec fn keys_step(s: EditorState, keys: Seq<u32>) -> EditorState
    decreases keys.len(),
{
    if keys.len() == 0 {
        s
    } else {
        key_step(keys_step(s, keys.drop_last()), keys.last())
    }
}

/// The key acts as an arrow in some mode: the four arrows, and `h`, `j`,
/// `k` and `l`, which stand for them in normal mode.
pub open spec fn is_arrow_key(ch: u32) -> bool {
    ||| ch == UP
    ||| ch == DOWN
    ||| ch == LEFT
    ||| ch == RIGHT
    ||| ch == 'h' as u32
    ||| ch == 'j' as u32
    ||| ch == 'k' as u32
    ||| ch == 'l' as u32
}

/// The action has no parts and is no word motion.
pub open spec fn is_plain(action: ActionView) -> bool {
    match action {
        ActionView::CompositeAction { .. } => false,
        ActionView::MoveByWords { .. } => false,
        ActionView::ApplyMotion { motion } => !(motion is Words),
        _ => true,
    }
}

/// What a plain action does by itself keeps a well-formed state well
/// formed.
pub proof fn lemma_plain_step_keeps_wf(s: EditorState, action: ActionView)
    requires
        s.wf(),
        is_plain(action),
    ensures
        s.apply_basic(action).wf(),
{
    match action {
        ActionView::ApplyMotion { motion } => {
            lemma_target_in_bounds(motion, s.lines, s.cursor);
        },
        ActionView::JumpLineAtCursor => {
            let broken = EditorState { lines: line_broken(s.lines, s.cursor), ..s };
            assert(broken.wf());
            assert(broken.moved_down().wf());
        },
        ActionView::AddCharAtCursor { ch } => {
            assert(s.char_added(ch).wf());
        },
        ActionView::DeleteCharAtCursor => {
            assert(s.char_deleted().wf());
        },
        ActionView::MoveCursor { dx, dy } => {
            assert(s.moved_left().wf());
            assert(s.moved_right().wf());
            assert(s.moved_up().wf());
            assert(s.moved_down().wf());
        },
        ActionView::MoveCursorDown => {
            assert(s.moved_to_next_line().wf());
        },
        ActionView::Put => {
            assert(s.put().wf());
        },
        ActionView::JumpToLine { line } => {
            assert(s.jumped(line).wf());
        },
        _ => {},
    }
}

/// A plain action keeps a well-formed state well formed.
pub proof fn lemma_plain_action_keeps_wf(s: EditorState, action: ActionView, is_undo: bool)
    requires
        s.wf(),
        is_plain(action),
    ensures
        apply_action(s, action, is_undo).wf(),
{
    if !s.exit_requested {
        let r = s.recorded(action, is_undo);
        if action is Undo {
            if r.history.len() > 0 {
                let entry = r.history.last();
                let back = (EditorState { history: r.history.drop_last(), ..r }).with_cursor(
                    r.clamped(entry.1),
                );
                lemma_plain_step_keeps_wf(back, entry.0.inverse());
            }
        } else {
            lemma_plain_step_keeps_wf(r, action);
        }
    }
}

/// Plain actions applied one after the other keep a well-formed state
/// well formed.
pub proof fn lemma_plain_actions_keep_wf(
    s: EditorState,
    actions: Seq<ActionView>,
    n: nat,
    is_undo: bool,
)
    requires
        s.wf(),
        forall|i: int| 0 <= i < actions.len() ==> is_plain(#[trigger] actions[i]),
    ensures
        apply_prefix(s, actions, n, is_undo).wf(),
    decreases n,
{
    if n == 0 || n > actions.len() {
    } else {
        lemma_plain_actions_keep_wf(s, actions, (n - 1) as nat, is_undo);
        lemma_plain_action_keeps_wf(
            apply_prefix(s, actions, (n - 1) as nat, is_undo),
            actions[n - 1],
            is_undo,
        );
    }
}

/// An arrow key keeps a well-formed state well formed, in whatever mode
/// it is pressed and whatever that mode has buffered.
pub proof fn lemma_arrow_key_keeps_wf(s: EditorState, ch: u32)
    requires
        s.wf(),
        is_arrow_key(ch),
    ensures
        key_step(s, ch).wf(),
{
    if !s.exit_requested {
        let (action, mode) = mode_step(s.mode, ch);
        let entered = EditorState { mode, ..s };
        match action {
            ActionView::CompositeAction { actions } => {
                let r = entered.recorded(action, false);
                lemma_plain_actions_keep_wf(r, actions, actions.len(), false);
            },
            _ => {
                lemma_plain_action_keeps_wf(entered, action, false);
            },
        }
    }
}

/// Whatever arrow keys are pressed, in whatever mode, the cursor never
/// leaves the document: its line is one of the lines of the document, and
/// its column lies between the start of that line and its end.
pub proof fn lemma_arrow_keys_keep_cursor_in_bounds(s: EditorState, keys: Seq<u32>)
    requires
        s.wf(),
        forall|i: int| 0 <= i < keys.len() ==> is_arrow_key(#[trigger] keys[i]),
    ensures
        keys_step(s, keys).wf(),
        0 <= keys_step(s, keys).cursor.y < keys_step(s, keys).lines.len(),
        0 <= keys_step(s, keys).cursor.x <= keys_step(s, keys).current_line().len(),
    decreases keys.len(),
{
    if keys.len() > 0 {
        lemma_arrow_keys_keep_cursor_in_bounds(s, keys.drop_last());
        lemma_arrow_key_keeps_wf(keys_step(s, keys.drop_last()), keys.last());
    }
}

/// What cannot be done is silently not done: each of these actions leaves
/// the state exactly as it is where it has nothing to act on.
pub proof fn lemma_silent_no_ops(s: EditorState, line: usize)
    requires
        s.wf(),
    ensures
        s.cursor.x == 0 ==> apply_action(s, ActionView::MoveCursor { dx: -1i32, dy: 0 }, false)
            == s,
        s.cursor.x == s.current_line().len() ==> apply_action(
            s,
            ActionView::MoveCursor { dx: 1, dy: 0 },
            false,
        ) == s,
        s.cursor.y == 0 ==> apply_action(s, ActionView::MoveCursor { dx: 0, dy: 1 }, false) == s,
        s.cursor.y + 1 == s.lines.len() ==> apply_action(
            s,
            ActionView::MoveCursor { dx: 0, dy: -1i32 },
            false,
        ) == s,
        s.cursor.y + 1 == s.lines.len() ==> apply_action(s, ActionView::MoveCursorDown, false)
            == s,
        s.register is None ==> apply_action(s, ActionView::Put, false) == s,
        s.selection is None ==> apply_action(s, ActionView::Yank, false) == s,
        s.selection is None ==> apply_action(s, ActionView::AbortCurrentAction, false) == s,
        s.history.len() == 0 ==> apply_action(s, ActionView::Undo, false) == s,
        line > s.lines.len() ==> apply_action(s, ActionView::JumpToLine { line }, false) == s,
        apply_action(s, ActionView::NoOp, false) == s,
{
}

/// Undoing walks strictly backward: it takes exactly the entry recorded
/// last out of the history and records nothing.
pub proof fn lemma_undo_shortens_the_history(s: EditorState)
    requires
        s.history.len() > 0,
        !s.exit_requested,
    ensures
        apply_action(s, ActionView::Undo, false).history == s.history.drop_last(),
{
}

/// Undoing is applying the inverse of the entry recorded last as an action
/// of its own that is not recorded again, after the entry was taken out
/// of the history and the cursor was put back.
pub proof fn lemma_undo_applies_the_inverse(s: EditorState)
    requires
        s.history.len() > 0,
        !s.exit_requested,
    ensures
        ({
            let entry = s.history.last();
            let back = (EditorState { history: s.history.drop_last(), ..s }).with_cursor(
                s.clamped(entry.1),
            );
            apply_action(s, ActionView::Undo, false) == apply_action(back, entry.0.inverse(), true)
        }),
{
}

/// Inserting a character and then undoing gives back what was there: the
/// document, the cursor and the history are as before the insertion.
///
/// The key code must stand for a character, and the cursor must be able
/// to take one more step to the right.
pub proof fn lemma_insert_then_undo(s: EditorState, ch: u32)
    requires
        s.wf(),
        is_scalar(ch),
        s.cursor.x < usize::MAX,
    ensures
        ({
            let inserted = apply_action(s, ActionView::AddCharAtCursor { ch }, false);
            let undone = apply_action(inserted, ActionView::Undo, false);
            &&& undone.lines == s.lines
            &&& undone.cursor == s.cursor
            &&& undone.history == s.history
        }),
{
    let line = s.current_line();
    let at = s.cursor.x as int;
    assert(line.insert(at, scalar(ch)->0).remove(at) =~= line);
}

/// Typing a character in insert mode, leaving for normal mode and pressing
/// `u` gives back what was there: the document and the cursor are as
/// before the character was typed.
///
/// The key must be one that insert mode inserts: the code of a character
/// that is none of the reserved key codes.
pub proof fn lemma_typed_character_is_undone_by_u(s: EditorState, ch: u32)
    requires
        s.wf(),
        !s.exit_requested,
        s.mode == ModeView::Insert,
        is_scalar(ch),
        insert_action(ch) == (ActionView::AddCharAtCursor { ch }),
        s.cursor.x < usize::MAX,
    ensures
        ({
            let typed = key_step(s, ch);
            let left = key_step(typed, ESCAPE);
            let undone = key_step(left, 'u' as u32);
            &&& typed.lines == char_inserted(s.lines, s.cursor, scalar(ch)->0)
            &&& left.mode == fresh_normal_mode()
            &&& left.lines == typed.lines
            &&& undone.lines == s.lines
            &&& undone.cursor == s.cursor
        }),
{
    lemma_insert_then_undo(s, ch);
}

/// Yanking a selection and then putting at any position of the document
/// inserts there exactly the text of the selected range: the register
/// holds that text, the selection is closed, the line of the position
/// holds the text before the position, and every other line and the
/// cursor are as they were.
pub proof fn lemma_yank_then_put(s: EditorState, selection: Selection, at: Cursor)
    requires
        s.wf(),
        !s.exit_requested,
        s.selection == Some(selection),
        in_bounds(s.lines, at),
    ensures
        ({
            let yanked = apply_action(s, ActionView::Yank, false);
            let put = apply_action(EditorState { cursor: at, ..yanked }, ActionView::Put, false);
            let text = span_text(s.lines, selection.lower(), selection.upper());
            &&& yanked.register == Some(text)
            &&& yanked.selection is None
            &&& yanked.lines == s.lines
            &&& put.lines == s.lines.update(at.y as int, spliced(s.lines[at.y as int], at.x as int, text))
            &&& put.cursor == at
        }),
{
}

} // verus!
