use modal_editor::cursor::Cursor;
use modal_editor::editor_action::EditorAction;
use modal_editor::motion::Motion;
use modal_editor::undo_redo::UndoRedoManager;
use modal_editor::yanker::Yanker;

fn every_action() -> Vec<EditorAction> {
    vec![
        EditorAction::AddCharAtCursor { ch: 97 },
        EditorAction::DeleteCharAtCursor,
        EditorAction::JumpLineAtCursor,
        EditorAction::MoveCursorDown,
        EditorAction::MoveCursor { dx: 1, dy: 0 },
        EditorAction::MoveByWords { n_words: 2 },
        EditorAction::ApplyMotion { motion: Motion::Forward { ch: 97 } },
        EditorAction::SwitchToInsertMode,
        EditorAction::SwitchToNormalMode,
        EditorAction::SwitchToCommandMode,
        EditorAction::ToggleSelectionState,
        EditorAction::Yank,
        EditorAction::Put,
        EditorAction::AbortCurrentAction,
        EditorAction::Save,
        EditorAction::Exit,
        EditorAction::CompositeAction { actions: vec![EditorAction::Yank] },
        EditorAction::JumpToLine { line: 3 },
        EditorAction::Undo,
        EditorAction::NoOp,
    ]
}

#[test]
fn only_edits_and_composite_actions_can_be_undone() {
    let undoable: Vec<bool> = every_action().iter().map(|action| action.can_be_undo()).collect();
    assert_eq!(
        undoable,
        vec![
            true, true, true, false, false, false, false, false, false, false, false, false,
            false, false, false, false, true, false, false, false
        ]
    );
    assert!(EditorAction::CompositeAction { actions: vec![] }.can_be_undo());
}

#[test]
fn only_an_insertion_has_an_inverse() {
    for (i, action) in every_action().iter().enumerate() {
        if i == 0 {
            assert!(matches!(action.undo_action(), EditorAction::DeleteCharAtCursor));
        } else {
            assert!(matches!(action.undo_action(), EditorAction::NoOp));
        }
    }
}

#[test]
fn clone_copies_every_part() {
    let action = EditorAction::composite(vec![
        EditorAction::AddCharAtCursor { ch: 120 },
        EditorAction::composite(vec![
            EditorAction::MoveCursor { dx: -1, dy: 0 },
            EditorAction::JumpToLine { line: 9 },
        ]),
        EditorAction::ApplyMotion { motion: Motion::Words { n_words: -3 } },
    ]);
    let copy = action.clone();
    assert_eq!(format!("{:?}", copy), format!("{:?}", action));
    for action in every_action() {
        assert_eq!(format!("{:?}", action.clone()), format!("{:?}", action));
    }
}

#[test]
fn composite_holds_the_given_actions_in_order() {
    let action = EditorAction::composite(vec![EditorAction::Save, EditorAction::Exit]);
    match action {
        EditorAction::CompositeAction { actions } => {
            assert_eq!(actions.len(), 2);
            assert!(matches!(actions[0], EditorAction::Save));
            assert!(matches!(actions[1], EditorAction::Exit));
        }
        _ => panic!("not a composite action"),
    }
}

#[test]
fn the_history_records_undoable_actions_only() {
    let mut history = UndoRedoManager::new();
    history.add_action(EditorAction::Yank, Cursor { x: 1, y: 1 });
    history.add_action(EditorAction::MoveCursor { dx: 1, dy: 0 }, Cursor { x: 1, y: 1 });
    history.add_action(EditorAction::Undo, Cursor { x: 1, y: 1 });
    assert!(history.undo().is_none());
}

#[test]
fn undo_returns_the_inverse_and_the_position_after_the_insertion() {
    let mut history = UndoRedoManager::new();
    history.add_action(EditorAction::AddCharAtCursor { ch: 97 }, Cursor { x: 4, y: 2 });
    let (action, cursor) = history.undo().unwrap();
    assert!(matches!(action, EditorAction::DeleteCharAtCursor));
    assert_eq!(cursor, Cursor { x: 5, y: 2 });
    assert!(history.undo().is_none());
}

#[test]
fn undo_takes_the_entries_last_in_first_out() {
    let mut history = UndoRedoManager::new();
    history.add_action(EditorAction::AddCharAtCursor { ch: 97 }, Cursor { x: 0, y: 0 });
    history.add_action(EditorAction::JumpLineAtCursor, Cursor { x: 1, y: 0 });
    history.add_action(EditorAction::Put, Cursor { x: 9, y: 9 });
    history.add_action(EditorAction::composite(vec![EditorAction::Put]), Cursor { x: 0, y: 1 });
    history.add_action(EditorAction::DeleteCharAtCursor, Cursor { x: 3, y: 1 });

    let (action, cursor) = history.undo().unwrap();
    assert!(matches!(action, EditorAction::NoOp));
    assert_eq!(cursor, Cursor { x: 4, y: 1 });
    let (action, cursor) = history.undo().unwrap();
    assert!(matches!(action, EditorAction::NoOp));
    assert_eq!(cursor, Cursor { x: 1, y: 1 });
    let (action, cursor) = history.undo().unwrap();
    assert!(matches!(action, EditorAction::NoOp));
    assert_eq!(cursor, Cursor { x: 2, y: 0 });
    let (action, cursor) = history.undo().unwrap();
    assert!(matches!(action, EditorAction::DeleteCharAtCursor));
    assert_eq!(cursor, Cursor { x: 1, y: 0 });
    assert!(history.undo().is_none());
    assert!(history.undo().is_none());
}

#[test]
fn the_recorded_column_stops_at_the_largest_number() {
    let mut history = UndoRedoManager::new();
    history.add_action(EditorAction::DeleteCharAtCursor, Cursor { x: usize::MAX, y: 0 });
    let (_, cursor) = history.undo().unwrap();
    assert_eq!(cursor, Cursor { x: usize::MAX, y: 0 });
}

#[test]
fn the_register_holds_the_text_yanked_last() {
    let mut register = Yanker::new();
    assert_eq!(*register.get_content(), None);
    register.yank("first".to_string());
    assert_eq!(*register.get_content(), Some("first".to_string()));
    register.yank("".to_string());
    assert_eq!(*register.get_content(), Some("".to_string()));
    register.yank("second".to_string());
    assert_eq!(*register.get_content(), Some("second".to_string()));
}

#[test]
fn positions_are_ordered_by_line_then_by_column() {
    let a = Cursor { x: 5, y: 1 };
    assert!(Cursor { x: 9, y: 0 } < a);
    assert!(Cursor { x: 4, y: 1 } < a);
    assert!(a < Cursor { x: 6, y: 1 });
    assert!(a < Cursor { x: 0, y: 2 });
    assert!(!(a < a));
    assert!(a <= a);
    assert!(a >= a);
    assert_eq!(a.partial_cmp(&a), Some(std::cmp::Ordering::Equal));
    assert_eq!(a.partial_cmp(&Cursor { x: 0, y: 2 }), Some(std::cmp::Ordering::Less));
    assert_eq!(a.partial_cmp(&Cursor { x: 9, y: 0 }), Some(std::cmp::Ordering::Greater));
    assert_eq!(a, Cursor { x: 5, y: 1 });
    assert_ne!(a, Cursor { x: 1, y: 5 });
}
