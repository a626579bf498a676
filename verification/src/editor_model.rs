//! The editing engine: it owns the document and everything that acts on it.

use vstd::prelude::*;
use vstd::string::*;
use crate::cursor::Cursor;
use crate::document::{
    break_line_at, document_from, document_of, insert_char_at, join_lines, join_with_previous,
    joined, put_text_at, remove_char_at, span,
};
use crate::editor_action::{ActionView, EditorAction};
use crate::modes::command_mode::CommandMode;
use crate::modes::insert_mode::InsertMode;
use crate::modes::normal_mode::NormalMode;
use crate::modes::{mode_description, mode_step, Mode, ModeView};
use crate::motion::{in_bounds, Motion};
use crate::screen::Screen;
use crate::selection::Selection;
use crate::state::{apply_action, apply_prefix, fresh_normal_mode, key_step, EditorState};
use crate::text::{char_count, lines_view};
use crate::undo_redo::UndoRedoManager;
use crate::yanker::Yanker;

verus! {

/// An editing mode, for instance the insert or the normal mode: it turns
/// key codes into actions.
pub trait EditorMode {
    /// The mode as a value, with what it has buffered.
    spec fn state(&self) -> ModeView;

    /// Translates a key into the action it stands for in this mode. The
    /// mode may keep the key to read a later one by it.
    fn key_tapped(&mut self, ch: u32) -> (action: EditorAction)
        ensures
            (action@, final(self).state()) == mode_step(old(self).state(), ch),
    ;

    /// The text that describes the mode on the status line.
    fn get_description(&self) -> (r: String)
        ensures
            r@ == mode_description(self.state()),
    ;
}

/// The editor model is the class which holds the text data and is in charge of all the editions.
pub struct EditorModel {
    filename: String,
    cursor: Cursor,
    screen: Screen,
    /// Contains the lines of the text
    lines: Vec<String>,
    /// The editor mode is in charge of parsing key tapped and returning editor actions
    editor_mode: Mode,
    /// The yanker keeps track of what is yanked and what is put
    yanker: Yanker,
    /// The selection is a property of the model. By default it is none.
    selection: Option<Selection>,
    /// The undo redo manager is in charge of keeping track of the last actions
    undo_redo_mgr: UndoRedoManager,
    /// The text of a save that was asked for and not taken yet
    save_request: Option<String>,
    /// The end of the program was asked for
    exit_requested: bool,
}

impl View for EditorModel {
    type V = EditorState;

    closed spec fn view(&self) -> EditorState {
        EditorState {
            filename: self.filename@,
            cursor: self.cursor,
            screen: self.screen,
            lines: lines_view(self.lines@),
            mode: self.editor_mode.state(),
            register: self.yanker@,
            selection: self.selection,
            history: self.undo_redo_mgr@,
            save_request: match self.save_request {
                Some(text) => Some(text@),
                None => None,
            },
            exit_requested: self.exit_requested,
        }
    }
}

/// The state of an engine that was just made for the document `lines`.
pub open spec fn initial_state(filename: Seq<char>, lines: Seq<Seq<char>>) -> EditorState {
    EditorState {
        filename,
        cursor: Cursor { x: 0, y: 0 },
        screen: Screen { top: 0, h: 0, w: 0 },
        lines,
        mode: fresh_normal_mode(),
        register: None,
        selection: None,
        history: Seq::empty(),
        save_request: None,
        exit_requested: false,
    }
}

impl EditorModel {
    /// The engine is well formed: its document has at least one line and
    /// its cursor stands inside the document.
    pub open spec fn wf(&self) -> bool {
        self@.wf()
    }

    /// An engine in normal mode on a document of two lines.
    pub fn new() -> (r: Self)
        ensures
            r.wf(),
            r@ == initial_state(
                "new_file.txt"@,
                seq!["Hello World"@, "This is another sentence"@],
            ),
    {
        let mut tmp: Vec<String> = Vec::new();
        tmp.push(String::from_str("Hello World"));
        tmp.push(String::from_str("This is another sentence"));
        assert(lines_view(tmp@) =~= seq!["Hello World"@, "This is another sentence"@]);
        Self {
            cursor: Cursor { x: 0, y: 0 },
            lines: tmp,
            editor_mode: Mode::Normal(NormalMode::new()),
            screen: Screen { top: 0, h: 0, w: 0 },
            yanker: Yanker::new(),
            selection: None,
            filename: String::from_str("new_file.txt"),
            undo_redo_mgr: UndoRedoManager::new(),
            save_request: None,
            exit_requested: false,
        }
    }

    /// An engine in normal mode on the document made of `lines`, to be
    /// saved under `filename`. No lines at all stand for one empty line.
    pub fn from_lines(filename: String, lines: Vec<String>) -> (r: Self)
        ensures
            r.wf(),
            r@ == initial_state(
                filename@,
                if lines.len() == 0 {
                    seq![Seq::<char>::empty()]
                } else {
                    lines_view(lines@)
                },
            ),
    {
        let mut lines = lines;
        if lines.len() == 0 {
            lines.push(String::new());
            assert(lines_view(lines@) =~= seq![Seq::<char>::empty()]);
        }
        Self {
            cursor: Cursor { x: 0, y: 0 },
            lines,
            editor_mode: Mode::Normal(NormalMode::new()),
            screen: Screen { top: 0, h: 0, w: 0 },
            yanker: Yanker::new(),
            selection: None,
            filename,
            undo_redo_mgr: UndoRedoManager::new(),
            save_request: None,
            exit_requested: false,
        }
    }

    /// An engine in normal mode on the document that `contents` holds, to
    /// be saved under `filename`. Without contents, and with contents that
    /// hold no line, the document is one empty line.
    pub fn from_contents(filename: String, contents: Option<String>) -> (r: Self)
        ensures
            r.wf(),
            r@ == initial_state(
                filename@,
                match contents {
                    Some(text) => document_of(text@),
                    None => seq![Seq::<char>::empty()],
                },
            ),
    {
        match contents {
            Some(text) => Self::from_lines(filename, document_from(&text)),
            None => Self::from_lines(filename, Vec::new()),
        }
    }

    /// Replaces the document by the one that `text` holds. The cursor is
    /// brought back into the new document, and an open selection follows
    /// it.
    pub fn set_text(&mut self, text: String)
        requires
            old(self).wf(),
        ensures
            final(self).wf(),
            final(self)@ == ({
                let replaced = EditorState { lines: document_of(text@), ..old(self)@ };
                replaced.with_cursor(replaced.clamped(old(self)@.cursor))
            }),
    {
        self.lines = document_from(&text);
        let cursor = self.clamp(self.cursor);
        self.set_cursor(cursor);
    }

    /// Sends the cursor at the top of the document
    pub fn reset_cursor(&mut self)
        requires
            old(self).wf(),
        ensures
            final(self).wf(),
            final(self)@ == old(self)@.with_cursor(Cursor { x: 0, y: 0 }),
    {
        self.set_cursor(Cursor { x: 0, y: 0 });
    }

    /// Switches to insert mode, as the action that the key `i` stands for
    /// does.
    pub fn force_insert_mode(&mut self)
        requires
            old(self).wf(),
        ensures
            final(self).wf(),
            final(self)@ == apply_action(old(self)@, ActionView::SwitchToInsertMode, false),
    {
        self.handle_editor_action(&EditorAction::SwitchToInsertMode, false);
    }

    /// Switches to normal mode, as the action that Escape stands for in
    /// insert mode does.
    pub fn force_normal_mode(&mut self)
        requires
            old(self).wf(),
        ensures
            final(self).wf(),
            final(self)@ == apply_action(old(self)@, ActionView::SwitchToNormalMode, false),
    {
        self.handle_editor_action(&EditorAction::SwitchToNormalMode, false);
    }

    /// Sets how many lines the screen shows.
    pub fn set_screen_h(&mut self, h: i32)
        ensures
            final(self)@ == (EditorState {
                screen: Screen { top: old(self)@.screen.top, h, w: old(self)@.screen.w },
                ..old(self)@
            }),
    {
        self.screen.h = h;
    }

    /// Sets how many characters a row of the screen shows.
    pub fn set_screen_w(&mut self, w: i32)
        ensures
            final(self)@ == (EditorState {
                screen: Screen { top: old(self)@.screen.top, h: old(self)@.screen.h, w },
                ..old(self)@
            }),
    {
        self.screen.w = w;
    }

    /// Returns which part of the document the screen shows
    pub fn get_screen_info(&self) -> (r: &Screen)
        ensures
            *r == self@.screen,
    {
        &self.screen
    }

    /// Returns the position of the cursor in the document
    pub fn get_cursor(&self) -> (r: &Cursor)
        ensures
            *r == self@.cursor,
    {
        &self.cursor
    }

    /// Returns the current selection, if one is open
    pub fn get_selection(&self) -> (r: Option<Selection>)
        ensures
            r == self@.selection,
    {
        self.selection
    }

    /// Returns the lines of the model
    pub fn get_lines(&self) -> (r: &Vec<String>)
        ensures
            lines_view(r@) == self@.lines,
    {
        &self.lines
    }

    /// The name under which the document is saved.
    pub fn get_filename(&self) -> (r: &String)
        ensures
            r@ == self@.filename,
    {
        &self.filename
    }

    /// The status line: the help text, what the active mode says of
    /// itself, and `selecting` while a selection is open, with a separator
    /// between each two.
    pub fn get_status_message(&self) -> (r: String)
        ensures
            r@ == self@.status(),
    {
        let mut r = String::from_str("   Press F1 to quit");
        r.append("  |  ");
        let description = self.editor_mode.get_description();
        r.append(description.as_str());
        r.append("  |  ");
        if self.selection.is_some() {
            r.append("selecting");
        }
        r
    }

    /// The text of the document: its lines with a line feed between each
    /// two.
    pub fn contents(&self) -> (r: String)
        ensures
            r@ == joined(self@.lines),
    {
        join_lines(&self.lines)
    }

    /// Hands out the text of a save that was asked for, if one was asked
    /// for since the last call. The text is the document as it was when
    /// the save was asked for.
    pub fn take_save_request(&mut self) -> (r: Option<String>)
        ensures
            final(self)@ == (EditorState { save_request: None, ..old(self)@ }),
            r is Some <==> old(self)@.save_request is Some,
            r matches Some(text) ==> old(self)@.save_request == Some(text@),
    {
        self.save_request.take()
    }

    /// Tells whether the end of the program was asked for.
    pub fn exit_requested(&self) -> (r: bool)
        ensures
            r == self@.exit_requested,
    {
        self.exit_requested
    }

    /// The number of characters of the line that the cursor is on.
    fn get_current_line_length(&self) -> (n: usize)
        requires
            self.wf(),
        ensures
            n == self@.current_line().len(),
    {
        char_count(&self.lines[self.cursor.y])
    }

    /// Changes self with the new provided cursor, while applying the logic for the selection
    fn set_cursor(&mut self, new_cursor_pos: Cursor)
        ensures
            final(self)@ == old(self)@.with_cursor(new_cursor_pos),
    {
        self.cursor = new_cursor_pos;
        if self.selection.is_some() {
            let mut selection = self.selection.unwrap();
            selection.set_new_end(new_cursor_pos);
            self.selection = Some(selection);
        }
    }

    /// Moves the cursor one step to the left.
    fn left_arrow_tapped(&mut self)
        requires
            old(self).wf(),
        ensures
            final(self).wf(),
            final(self)@ == old(self)@.moved_left(),
    {
        if self.cursor.x > 0 {
            self.set_cursor(Cursor { x: self.cursor.x - 1, y: self.cursor.y });
        }
    }

    /// Moves the cursor one step to the right.
    fn right_arrow_tapped(&mut self)
        requires
            old(self).wf(),
        ensures
            final(self).wf(),
            final(self)@ == old(self)@.moved_right(),
    {
        if self.cursor.x < self.get_current_line_length() {
            self.set_cursor(Cursor { x: self.cursor.x + 1, y: self.cursor.y });
        }
    }

    /// If the x-cursor is beyond the last character of its line, moves it onto that character
    fn fit_xcursor_to_line(&self, cursor: &mut Cursor)
        requires
            old(cursor).y < self@.lines.len(),
        ensures
            *final(cursor) == self@.fitted(*old(cursor)),
            in_bounds(self@.lines, *final(cursor)),
    {
        let n = char_count(&self.lines[cursor.y]);
        if n > 0 && cursor.x > n - 1 {
            cursor.x = n - 1;
        } else if n == 0 {
            cursor.x = 0;
        }
    }

    /// Brings a position back into the document.
    fn clamp(&self, cursor: Cursor) -> (r: Cursor)
        requires
            self@.lines.len() > 0,
        ensures
            r == self@.clamped(cursor),
            in_bounds(self@.lines, r),
    {
        let y = if cursor.y < self.lines.len() {
            cursor.y
        } else {
            self.lines.len() - 1
        };
        let n = char_count(&self.lines[y]);
        let x = if cursor.x <= n {
            cursor.x
        } else {
            n
        };
        Cursor { x, y }
    }

    /// Moves the cursor one line up.
    fn top_arrow_tapped(&mut self)
        requires
            old(self).wf(),
        ensures
            final(self).wf(),
            final(self)@ == old(self)@.moved_up(),
    {
        if self.cursor.y > 0 {
            // 1. move the screen up
            self.screen.scroll_up_from(self.cursor.y);
            // 2. Update the cursor position
            let mut new_cursor = self.cursor;
            new_cursor.y -= 1;
            self.fit_xcursor_to_line(&mut new_cursor);
            self.set_cursor(new_cursor);
        }
    }

    /// Moves the cursor one line down.
    fn bottom_arrow_tapped(&mut self)
        requires
            old(self).wf(),
        ensures
            final(self).wf(),
            final(self)@ == old(self)@.moved_down(),
    {
        if self.cursor.y < self.lines.len() - 1 {
            // 1. move the screen down
            self.screen.scroll_down_from(self.cursor.y);
            // 2. Update the cursor position
            let mut new_cursor = self.cursor;
            new_cursor.y += 1;
            self.fit_xcursor_to_line(&mut new_cursor);
            self.set_cursor(new_cursor);
        }
    }

    /// Inserts the character with the given code at the cursor.
    fn add_character_at_cursor(&mut self, ch: u32)
        requires
            old(self).wf(),
        ensures
            final(self).wf(),
            final(self)@ == old(self)@.char_added(ch),
    {
        if let Some(ch) = char::from_u32(ch) {
            // Edit the model
            insert_char_at(&mut self.lines, self.cursor, ch);
            // Move the cursor one character to the right
            if self.cursor.x < usize::MAX {
                self.set_cursor(Cursor { x: self.cursor.x + 1, y: self.cursor.y });
            } else {
                self.set_cursor(self.cursor);
            }
        }
    }

    /// Deletes the character before the cursor, or joins the line to the
    /// one above it.
    fn remove_character_at_cursor(&mut self)
        requires
            old(self).wf(),
        ensures
            final(self).wf(),
            final(self)@ == old(self)@.char_deleted(),
    {
        if self.cursor.x > 0 {
            // Delete the character before the cursor
            let at = Cursor { x: self.cursor.x - 1, y: self.cursor.y };
            remove_char_at(&mut self.lines, at);
            self.set_cursor(at);
        } else if self.cursor.y > 0 {
            // Delete the current line, append its content to the previous line
            let dx = join_with_previous(&mut self.lines, self.cursor.y);
            self.set_cursor(Cursor { x: dx, y: self.cursor.y - 1 });
        }
    }

    /// Called upon enter key pressed. Asks for adding a break line at current position
    fn add_new_line(&mut self)
        requires
            old(self).wf(),
        ensures
            final(self).wf(),
            final(self)@ == old(self)@.line_split(),
    {
        break_line_at(&mut self.lines, self.cursor);
        // Move the cursor below
        self.bottom_arrow_tapped();
        // Enforce the cursor to zero
        self.set_cursor(Cursor { x: 0, y: self.cursor.y });
    }

    /// Moves the cursor to where the motion leads.
    fn follow_motion(&mut self, motion: &Motion)
        requires
            old(self).wf(),
        ensures
            final(self).wf(),
            final(self)@ == old(self)@.moved_by(*motion),
    {
        let selection = motion.apply(self);
        self.set_cursor(Cursor { x: selection.1.x(), y: selection.1.y() });
    }

    /// Stores the text of the selection in the register and closes the selection.
    fn yank_selection(&mut self)
        ensures
            final(self)@ == old(self)@.yanked(),
    {
        if let Some(selection) = self.selection {
            let content = span(&self.lines, selection.start(), selection.end());
            self.yanker.yank(content);
            // Clear the current selection
            self.selection = None;
        }
    }

    /// Inserts the text of the register at the cursor.
    fn put_register(&mut self)
        requires
            old(self).wf(),
        ensures
            final(self).wf(),
            final(self)@ == old(self)@.put(),
    {
        if let Some(content) = self.yanker.get_content() {
            put_text_at(&mut self.lines, self.cursor, content);
        }
    }

    /// Puts the cursor at the start of the given line.
    fn jump_to_line(&mut self, line: usize)
        requires
            old(self).wf(),
        ensures
            final(self).wf(),
            final(self)@ == old(self)@.jumped(line),
    {
        if line <= self.lines.len() {
            let y = if line < self.lines.len() {
                line
            } else {
                self.lines.len() - 1
            };
            self.set_cursor(Cursor { x: 0, y });
        }
    }

    /// Applies an action that has no parts and is not an undo.
    fn apply_basic(&mut self, action: &EditorAction)
        requires
            old(self).wf(),
        ensures
            final(self).wf(),
            final(self)@ == old(self)@.apply_basic(action@),
    {
        match action {
            EditorAction::AddCharAtCursor { ch } => self.add_character_at_cursor(*ch),
            EditorAction::JumpLineAtCursor => self.add_new_line(),
            EditorAction::DeleteCharAtCursor => self.remove_character_at_cursor(),
            EditorAction::MoveCursorDown => {
                if self.cursor.y < self.lines.len() - 1 {
                    self.set_cursor(Cursor { x: 0, y: self.cursor.y + 1 });
                }
            },
            EditorAction::MoveCursor { dx, dy } => {
                if *dx == 1 && *dy == 0 {
                    self.right_arrow_tapped();
                } else if *dx == -1 && *dy == 0 {
                    self.left_arrow_tapped();
                } else if *dx == 0 && *dy == 1 {
                    self.top_arrow_tapped();
                } else if *dx == 0 && *dy == -1 {
                    self.bottom_arrow_tapped();
                }
            },
            EditorAction::MoveByWords { n_words } => {
                self.follow_motion(&Motion::Words { n_words: *n_words });
            },
            EditorAction::ApplyMotion { motion } => {
                self.follow_motion(motion);
            },
            EditorAction::SwitchToInsertMode => {
                self.editor_mode = Mode::Insert(InsertMode {  });
            },
            EditorAction::SwitchToNormalMode => {
                self.editor_mode = Mode::Normal(NormalMode::new());
            },
            EditorAction::SwitchToCommandMode => {
                self.editor_mode = Mode::Command(CommandMode::new());
            },
            EditorAction::Save => {
                self.save_request = Some(join_lines(&self.lines));
            },
            EditorAction::Exit => {
                self.exit_requested = true;
            },
            EditorAction::AbortCurrentAction => {
                self.selection = None;
            },
            EditorAction::ToggleSelectionState => {
                if self.selection.is_none() {
                    self.selection = Some(Selection::new(self.cursor, self.cursor));
                } else {
                    self.selection = None;
                }
            },
            EditorAction::Yank => self.yank_selection(),
            EditorAction::Put => self.put_register(),
            EditorAction::JumpToLine { line } => self.jump_to_line(*line),
            EditorAction::CompositeAction { .. } => {},
            EditorAction::Undo => {},
            EditorAction::NoOp => {},
        }
    }

    /// Changes self according to what the given action asks for
    fn handle_editor_action(&mut self, action: &EditorAction, is_undo: bool)
        requires
            old(self).wf(),
        ensures
            final(self).wf(),
            final(self)@ == apply_action(old(self)@, action@, is_undo),
        decreases action,
    {
        if self.exit_requested {
            return ;
        }
        // Keep track of the action through the undo redo manager
        if !is_undo && action.can_be_undo() {
            self.undo_redo_mgr.add_action(action.clone(), self.cursor);
        }
        let ghost recorded = self@;
        assert(recorded == old(self)@.recorded(action@, is_undo));
        match action {
            EditorAction::CompositeAction { actions } => {
                let mut i: usize = 0;
                while i < actions.len()
                    invariant
                        i <= actions.len(),
                        action is CompositeAction,
                        action->actions == *actions,
                        self.wf(),
                        self@ == apply_prefix(recorded, action@->actions, i as nat, is_undo),
                    decreases actions.len() - i,
                {
                    assert(action@->actions[i as int] == actions@[i as int]@);
                    self.handle_editor_action(&actions[i], is_undo);
                    i += 1;
                }
            },
            EditorAction::Undo => {
                if let Some(to_undo) = self.undo_redo_mgr.undo() {
                    // Move to the cursor position
                    let cursor = self.clamp(to_undo.1);
                    self.set_cursor(cursor);
                    // Apply the action
                    self.apply_basic(&to_undo.0);
                }
            },
            _ => self.apply_basic(action),
        }
    }

    /// Handles one key: the active mode translates it into an action,
    /// which is then applied.
    pub fn key_tapped(&mut self, ch: u32)
        requires
            old(self).wf(),
        ensures
            final(self).wf(),
            final(self)@ == key_step(old(self)@, ch),
    {
        if self.exit_requested {
            return ;
        }
        let action = self.editor_mode.key_tapped(ch);
        self.handle_editor_action(&action, false);
    }
}

} // verus!
