//! Normal mode: keys are commands.

use vstd::prelude::*;
use vstd::string::*;
use crate::editor_action::{action_views, ActionView, EditorAction};
use crate::editor_model::EditorMode;
use crate::keys::{is_digit, spec_is_digit, BACKSPACE, DIGIT_BASELINE, DOWN, ENTER, ESCAPE, LEFT, RIGHT, UP};
use crate::modes::ModeView;
use crate::motion::Motion;

verus! {

/// A buffering mode is a way to wait for another key.
/// After pressing some keys, like 'r' or 'f', the editor waits for another key.
/// The buffering mode specifies which action is expected to happen once the
/// buffer is full.
#[derive(Clone, Copy, Debug, PartialEq, Eq, Structural)]
pub enum BufferingMode {
    Replace,
    Forward,
    Backward,
    /// When typing a number
    Number,
}

/// Normal mode as a value.
pub struct NormalState {
    /// The next key goes to the buffer.
    pub is_buffering: bool,
    /// What the buffered keys are for; `None` until a first key asked for
    /// buffering.
    pub buffering_mode: Option<BufferingMode>,
    /// The keys buffered since buffering began last.
    pub buffer: Seq<u32>,
}

/// Normal mode, with the keys it has buffered for a command of several
/// keys.
pub struct NormalMode {
    is_buffering: bool,
    buffering_mode: Option<BufferingMode>,
    buffer: Vec<u32>,
}

impl View for NormalMode {
    type V = NormalState;

    closed spec fn view(&self) -> NormalState {
        NormalState {
            is_buffering: self.is_buffering,
            buffering_mode: self.buffering_mode,
            buffer: self.buffer@,
        }
    }
}

/// The number that a sequence of digit keys writes in base ten.
pub open spec fn decimal_value(digits: Seq<u32>) -> nat
    decreases digits.len(),
{
    if digits.len() == 0 {
        0
    } else {
        (decimal_value(digits.drop_last()) * 10 + (digits.last() - DIGIT_BASELINE)) as nat
    }
}

/// Every key of the sequence is a digit.
pub open spec fn all_digits(keys: Seq<u32>) -> bool {
    forall|i: int| 0 <= i < keys.len() ==> spec_is_digit(#[trigger] keys[i])
}

/// The line number that the keys write: they must be one or more digits,
/// and the number must fit the machine's word.
pub open spec fn typed_line(keys: Seq<u32>) -> Option<usize> {
    if keys.len() > 0 && all_digits(keys) && decimal_value(keys) <= usize::MAX {
        Some(decimal_value(keys) as usize)
    } else {
        None
    }
}

/// The parts of the action that replaces the character under the cursor
/// by the one with code `ch`: step right, delete the character before the
/// cursor, insert the new one, step left.
pub open spec fn replace_steps(ch: u32) -> Seq<ActionView> {
    seq![
        ActionView::MoveCursor { dx: 1, dy: 0 },
        ActionView::DeleteCharAtCursor,
        ActionView::AddCharAtCursor { ch },
        ActionView::MoveCursor { dx: -1i32, dy: 0 },
    ]
}

/// The parts of the action that opens a line below the cursor.
pub open spec fn open_below_steps() -> Seq<ActionView> {
    seq![
        ActionView::MoveCursorDown,
        ActionView::JumpLineAtCursor,
        ActionView::MoveCursor { dx: 0, dy: 1 },
        ActionView::SwitchToInsertMode,
    ]
}

/// The parts of the action that opens a line above the cursor.
pub open spec fn open_above_steps() -> Seq<ActionView> {
    seq![
        ActionView::MoveCursor { dx: 0, dy: 1 },
        ActionView::JumpLineAtCursor,
        ActionView::SwitchToInsertMode,
    ]
}

/// The parts of the action that deletes the character under the cursor:
/// step right, then delete the character before the cursor.
pub open spec fn delete_under_steps() -> Seq<ActionView> {
    seq![ActionView::MoveCursor { dx: 1, dy: 0 }, ActionView::DeleteCharAtCursor]
}

/// What the buffered keys mean once `buffer` holds the key pressed last,
/// as the action to apply and whether buffering goes on.
///
/// Escape, Enter and Backspace do nothing and change nothing. Otherwise
/// replacing and searching end with the one key they waited for. A number
/// goes on while digits come; any other key ends it, and `G` then jumps to
/// the line that the keys before it write, if they write one.
pub open spec fn buffered_action(mode: BufferingMode, buffer: Seq<u32>, is_buffering: bool) -> (
    ActionView,
    bool,
) {
    let ch = buffer.last();
    if ch == ESCAPE || ch == ENTER || ch == BACKSPACE {
        (ActionView::NoOp, is_buffering)
    } else {
        match mode {
            BufferingMode::Replace => (
                ActionView::CompositeAction { actions: replace_steps(ch) },
                false,
            ),
            BufferingMode::Forward => (
                ActionView::ApplyMotion { motion: Motion::Forward { ch } },
                false,
            ),
            BufferingMode::Backward => (
                ActionView::ApplyMotion { motion: Motion::Backward { ch } },
                false,
            ),
            BufferingMode::Number => if spec_is_digit(ch) {
                (ActionView::NoOp, is_buffering)
            } else if ch == 'G' as u32 {
                match typed_line(buffer.drop_last()) {
                    Some(line) => (ActionView::JumpToLine { line }, false),
                    None => (ActionView::NoOp, false),
                }
            } else {
                (ActionView::NoOp, false)
            },
        }
    }
}

/// Normal mode as it is right after a key began buffering for `mode`.
pub open spec fn buffering_for(mode: BufferingMode, buffer: Seq<u32>) -> NormalState {
    NormalState { is_buffering: true, buffering_mode: Some(mode), buffer }
}

/// What a key does in normal mode, as the action it stands for and the
/// mode after the key.
///
/// While buffering, the key joins the buffer and the buffering mode
/// decides. Otherwise the key is looked up in the table of commands; `r`,
/// `f`, `F` and the digits begin buffering, and `;` lets the buffering
/// mode decide again on the buffer as it stands.
pub open spec fn normal_step(s: NormalState, ch: u32) -> (ActionView, NormalState) {
    if s.is_buffering && s.buffering_mode is Some {
        let buffer = s.buffer.push(ch);
        let (action, still) = buffered_action(s.buffering_mode->0, buffer, s.is_buffering);
        (action, NormalState { is_buffering: still, buffering_mode: s.buffering_mode, buffer })
    } else if ch == 'j' as u32 || ch == DOWN {
        (ActionView::MoveCursor { dx: 0, dy: -1i32 }, s)
    } else if ch == 'k' as u32 || ch == UP {
        (ActionView::MoveCursor { dx: 0, dy: 1 }, s)
    } else if ch == 'h' as u32 || ch == LEFT {
        (ActionView::MoveCursor { dx: -1i32, dy: 0 }, s)
    } else if ch == 'l' as u32 || ch == RIGHT {
        (ActionView::MoveCursor { dx: 1, dy: 0 }, s)
    } else if ch == BACKSPACE {
        (ActionView::MoveCursor { dx: -1i32, dy: 0 }, s)
    } else if ch == ENTER {
        (ActionView::MoveCursorDown, s)
    } else if ch == ESCAPE {
        (ActionView::AbortCurrentAction, s)
    } else if ch == 'i' as u32 {
        (ActionView::SwitchToInsertMode, s)
    } else if ch == 'o' as u32 {
        (ActionView::CompositeAction { actions: open_below_steps() }, s)
    } else if ch == 'O' as u32 {
        (ActionView::CompositeAction { actions: open_above_steps() }, s)
    } else if ch == 'w' as u32 {
        (ActionView::MoveByWords { n_words: 1 }, s)
    } else if ch == 'b' as u32 {
        (ActionView::MoveByWords { n_words: -1i32 }, s)
    } else if ch == ':' as u32 {
        (ActionView::SwitchToCommandMode, s)
    } else if ch == 'v' as u32 {
        (ActionView::ToggleSelectionState, s)
    } else if ch == 'y' as u32 {
        (ActionView::Yank, s)
    } else if ch == 'u' as u32 {
        (ActionView::Undo, s)
    } else if ch == 'p' as u32 {
        (ActionView::Put, s)
    } else if ch == 'x' as u32 {
        (ActionView::CompositeAction { actions: delete_under_steps() }, s)
    } else if ch == 'r' as u32 {
        (ActionView::NoOp, buffering_for(BufferingMode::Replace, Seq::empty()))
    } else if ch == 'f' as u32 {
        (ActionView::NoOp, buffering_for(BufferingMode::Forward, Seq::empty()))
    } else if ch == 'F' as u32 {
        (ActionView::NoOp, buffering_for(BufferingMode::Backward, Seq::empty()))
    } else if ch == ';' as u32 {
        if s.buffering_mode is Some && s.buffer.len() > 0 {
            let (action, still) = buffered_action(s.buffering_mode->0, s.buffer, s.is_buffering);
            (
                action,
                NormalState {
                    is_buffering: still,
                    buffering_mode: s.buffering_mode,
                    buffer: s.buffer,
                },
            )
        } else {
            (ActionView::NoOp, s)
        }
    } else if spec_is_digit(ch) {
        (ActionView::NoOp, buffering_for(BufferingMode::Number, seq![ch]))
    } else {
        (ActionView::NoOp, s)
    }
}

/// The value of a sequence of digits is at least the value of each of its
/// prefixes.
pub proof fn lemma_decimal_value_grows(digits: Seq<u32>, k: int)
    requires
        all_digits(digits),
        0 <= k <= digits.len(),
    ensures
        decimal_value(digits.subrange(0, k)) <= decimal_value(digits),
    decreases digits.len(),
{
    if k == digits.len() {
        assert(digits.subrange(0, k) =~= digits);
    } else {
        lemma_decimal_value_grows(digits.drop_last(), k);
        assert(digits.drop_last().subrange(0, k) =~= digits.subrange(0, k));
    }
}

/// Reads the keys as a line number in base ten.
pub fn parse_line(keys: &Vec<u32>, count: usize) -> (r: Option<usize>)
    requires
        count <= keys.len(),
    ensures
        r == typed_line(keys@.subrange(0, count as int)),
{
    let ghost digits = keys@.subrange(0, count as int);
    if count == 0 {
        return None;
    }
    let mut value: usize = 0;
    let mut i: usize = 0;
    while i < count
        invariant
            i <= count <= keys.len(),
            digits == keys@.subrange(0, count as int),
            all_digits(digits.subrange(0, i as int)),
            value == decimal_value(digits.subrange(0, i as int)),
        decreases count - i,
    {
        let key = keys[i];
        if !is_digit(key) {
            assert(!spec_is_digit(digits[i as int]));
            return None;
        }
        let digit = (key - DIGIT_BASELINE) as usize;
        assert(digits.subrange(0, i + 1).drop_last() =~= digits.subrange(0, i as int));
        if value > (usize::MAX - digit) / 10 {
            proof {
                if all_digits(digits) {
                    lemma_decimal_value_grows(digits, i + 1);
                }
            }
            return None;
        }
        value = value * 10 + digit;
        i += 1;
    }
    assert(digits.subrange(0, count as int) =~= digits);
    Some(value)
}

impl BufferingMode {
    /// Return the action created by pressing the provided key while in this buffering mode.
    ///
    /// The parameter `is_buffering` can be changed by this function if the buffering is finished.
    ///
    /// For instance, if you are in 'forward' mode (after pressing 'f'), the action is to apply a
    /// forward motion, and the buffering is finished.
    ///
    /// Otherwise, if you typed a number (go to line), as long as `G` is not pressed, you want to
    /// keep buffering.
    pub fn get_action(&self, buffer: &Vec<u32>, is_buffering: &mut bool) -> (action: EditorAction)
        requires
            buffer.len() > 0,
        ensures
            (action@, *final(is_buffering)) == buffered_action(
                *self,
                buffer@,
                *old(is_buffering),
            ),
    {
        // The last element of the buffer is the last key that was pressed
        let ch = buffer[buffer.len() - 1];
        if ch == ESCAPE || ch == ENTER || ch == BACKSPACE {
            return EditorAction::NoOp;
        }
        match *self {
            BufferingMode::Replace => {
                *is_buffering = false;
                let actions = vec![
                    EditorAction::MoveCursor { dx: 1, dy: 0 },
                    EditorAction::DeleteCharAtCursor,
                    EditorAction::AddCharAtCursor { ch },
                    EditorAction::MoveCursor { dx: -1, dy: 0 },
                ];
                assert(action_views(actions@) =~= replace_steps(ch));
                EditorAction::composite(actions)
            },
            BufferingMode::Forward => {
                *is_buffering = false;
                EditorAction::ApplyMotion { motion: Motion::Forward { ch } }
            },
            BufferingMode::Backward => {
                *is_buffering = false;
                EditorAction::ApplyMotion { motion: Motion::Backward { ch } }
            },
            BufferingMode::Number => {
                if !is_digit(ch) {
                    // If it is not a digit, the buffering is finished
                    *is_buffering = false;
                    // If 'G' is pressed, triggers a line move
                    if ch == 'G' as u32 {
                        // The line number is made of all the keys but the last, which is 'G'
                        if let Some(line_number) = parse_line(buffer, buffer.len() - 1) {
                            return EditorAction::JumpToLine { line: line_number };
                        }
                    }
                }
                EditorAction::NoOp
            },
        }
    }
}

impl NormalMode {
    /// Normal mode with nothing buffered.
    pub fn new() -> (r: Self)
        ensures
            r@ == (NormalState {
                is_buffering: false,
                buffering_mode: None,
                buffer: Seq::<u32>::empty(),
            }),
    {
        Self { buffering_mode: None, is_buffering: false, buffer: Vec::new() }
    }

    /// Call this function when we must start a new buffering mode.
    ///
    /// For instance, after the 'f' key is pressed.
    fn start_buffering(&mut self, mode: BufferingMode)
        ensures
            final(self)@ == buffering_for(mode, Seq::<u32>::empty()),
    {
        self.buffer.clear();
        self.is_buffering = true;
        self.buffering_mode = Some(mode);
    }
}

impl EditorMode for NormalMode {
    open spec fn state(&self) -> ModeView {
        ModeView::Normal(self@)
    }

    fn key_tapped(&mut self, ch: u32) -> (action: EditorAction) {
        if self.is_buffering && self.buffering_mode.is_some() {
            // If we are buffering, send the next character to the buffering mode
            self.buffer.push(ch);
            let mode = self.buffering_mode.unwrap();
            let mut still = self.is_buffering;
            let action = mode.get_action(&self.buffer, &mut still);
            self.is_buffering = still;
            return action;
        }
        // Otherwise, match the character with the expected action
        if ch == 'j' as u32 || ch == DOWN {
            EditorAction::MoveCursor { dx: 0, dy: -1 }
        } else if ch == 'k' as u32 || ch == UP {
            EditorAction::MoveCursor { dx: 0, dy: 1 }
        } else if ch == 'h' as u32 || ch == LEFT {
            EditorAction::MoveCursor { dx: -1, dy: 0 }
        } else if ch == 'l' as u32 || ch == RIGHT {
            EditorAction::MoveCursor { dx: 1, dy: 0 }
        } else if ch == BACKSPACE {
            EditorAction::MoveCursor { dx: -1, dy: 0 }
        } else if ch == ENTER {
            EditorAction::MoveCursorDown
        } else if ch == ESCAPE {
            EditorAction::AbortCurrentAction
        } else if ch == 'i' as u32 {
            EditorAction::SwitchToInsertMode
        } else if ch == 'o' as u32 {
            let actions = vec![
                EditorAction::MoveCursorDown,
                EditorAction::JumpLineAtCursor,
                EditorAction::MoveCursor { dx: 0, dy: 1 },
                EditorAction::SwitchToInsertMode,
            ];
            assert(action_views(actions@) =~= open_below_steps());
            EditorAction::composite(actions)
        } else if ch == 'O' as u32 {
            let actions = vec![
                EditorAction::MoveCursor { dx: 0, dy: 1 },
                EditorAction::JumpLineAtCursor,
                EditorAction::SwitchToInsertMode,
            ];
            assert(action_views(actions@) =~= open_above_steps());
            EditorAction::composite(actions)
        } else if ch == 'w' as u32 {
            EditorAction::MoveByWords { n_words: 1 }
        } else if ch == 'b' as u32 {
            EditorAction::MoveByWords { n_words: -1 }
        } else if ch == ':' as u32 {
            EditorAction::SwitchToCommandMode
        } else if ch == 'v' as u32 {
            EditorAction::ToggleSelectionState
        } else if ch == 'y' as u32 {
            EditorAction::Yank
        } else if ch == 'u' as u32 {
            EditorAction::Undo
        } else if ch == 'p' as u32 {
            EditorAction::Put
        } else if ch == 'x' as u32 {
            // x is like pressing backspace with a previous right arrow move
            let actions = vec![
                EditorAction::MoveCursor { dx: 1, dy: 0 },
                EditorAction::DeleteCharAtCursor,
            ];
            assert(action_views(actions@) =~= delete_under_steps());
            EditorAction::composite(actions)
        } else if ch == 'r' as u32 {
            self.start_buffering(BufferingMode::Replace);
            EditorAction::NoOp
        } else if ch == 'f' as u32 {
            self.start_buffering(BufferingMode::Forward);
            EditorAction::NoOp
        } else if ch == 'F' as u32 {
            self.start_buffering(BufferingMode::Backward);
            EditorAction::NoOp
        } else if ch == ';' as u32 {
            // re-apply the previous motion
            if self.buffering_mode.is_some() && self.buffer.len() > 0 {
                let mode = self.buffering_mode.unwrap();
                let mut still = self.is_buffering;
                let action = mode.get_action(&self.buffer, &mut still);
                self.is_buffering = still;
                action
            } else {
                EditorAction::NoOp
            }
        } else if is_digit(ch) {
            self.start_buffering(BufferingMode::Number);
            self.buffer.push(ch);
            EditorAction::NoOp
        } else {
            EditorAction::NoOp
        }
    }

    fn get_description(&self) -> (r: String) {
        if self.is_buffering {
            String::from_str("Normal Mode (buffering)")
        } else {
            String::from_str("Normal Mode")
        }
    }
}

} // verus!
