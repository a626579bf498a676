use modal_editor::cursor::Cursor;
use modal_editor::editor_model::EditorModel;
use modal_editor::keys::{BACKSPACE, DOWN, ENTER, ESCAPE, LEFT, RIGHT, UP};

fn model_with(text: &str) -> EditorModel {
    let mut model = EditorModel::new();
    model.set_text(text.to_string());
    model
}

fn four_lines() -> EditorModel {
    model_with("Hello world\nanother sentence\n\nAnd a last sentence\n")
}

fn press(model: &mut EditorModel, keys: &str) {
    for key in keys.chars() {
        model.key_tapped(key as u32);
    }
}

fn cursor_of(model: &EditorModel) -> (usize, usize) {
    (model.get_cursor().x, model.get_cursor().y)
}

fn lines_of(model: &EditorModel) -> Vec<String> {
    model.get_lines().clone()
}

#[test]
fn new_model_holds_two_lines_in_normal_mode() {
    let model = EditorModel::new();
    assert_eq!(lines_of(&model), vec!["Hello World", "This is another sentence"]);
    assert_eq!(cursor_of(&model), (0, 0));
    assert!(model.get_selection().is_none());
    assert_eq!(model.get_filename(), "new_file.txt");
    assert_eq!(model.get_status_message(), "   Press F1 to quit  |  Normal Mode  |  ");
    assert!(!model.exit_requested());
}

#[test]
fn model_without_contents_holds_one_empty_line() {
    let model = EditorModel::from_contents("notes.txt".to_string(), None);
    assert_eq!(lines_of(&model), vec![""]);
    assert_eq!(model.get_filename(), "notes.txt");
    assert_eq!(cursor_of(&model), (0, 0));
}

#[test]
fn model_from_empty_contents_holds_one_empty_line() {
    let model = EditorModel::from_contents("notes.txt".to_string(), Some(String::new()));
    assert_eq!(lines_of(&model), vec![""]);
}

#[test]
fn model_from_contents_holds_the_lines_of_the_text() {
    let text = "first\r\nsecond\n\nlast".to_string();
    let model = EditorModel::from_contents("notes.txt".to_string(), Some(text));
    assert_eq!(lines_of(&model), vec!["first", "second", "", "last"]);
}

#[test]
fn model_from_no_lines_holds_one_empty_line() {
    let model = EditorModel::from_lines("notes.txt".to_string(), Vec::new());
    assert_eq!(lines_of(&model), vec![""]);
    let model = EditorModel::from_lines(
        "notes.txt".to_string(),
        vec!["one".to_string(), "two".to_string()],
    );
    assert_eq!(lines_of(&model), vec!["one", "two"]);
}

#[test]
fn set_text_brings_the_cursor_back_into_the_document() {
    let mut model = four_lines();
    press(&mut model, "jjjllllll");
    assert_eq!(cursor_of(&model), (6, 3));
    model.set_text("ab\ncd".to_string());
    assert_eq!(lines_of(&model), vec!["ab", "cd"]);
    assert_eq!(cursor_of(&model), (2, 1));
}

#[test]
fn arrows_never_leave_the_document() {
    let mut model = four_lines();
    let keys = [
        LEFT, UP, RIGHT, RIGHT, DOWN, DOWN, RIGHT, RIGHT, DOWN, DOWN, DOWN, RIGHT, LEFT, LEFT,
        UP, UP, UP, UP, LEFT,
    ];
    for _ in 0..3 {
        for key in keys {
            model.key_tapped(key);
            let cursor = *model.get_cursor();
            assert!(cursor.y < model.get_lines().len());
            assert!(cursor.x <= model.get_lines()[cursor.y].chars().count());
        }
    }
    for _ in 0..40 {
        model.key_tapped(RIGHT);
    }
    assert_eq!(cursor_of(&model), (11, 0));
    for _ in 0..40 {
        model.key_tapped(DOWN);
    }
    assert_eq!(cursor_of(&model), (0, 3));
    for _ in 0..40 {
        model.key_tapped(RIGHT);
    }
    assert_eq!(cursor_of(&model), (19, 3));
    for _ in 0..40 {
        model.key_tapped(UP);
    }
    assert_eq!(cursor_of(&model), (0, 0));
}

#[test]
fn left_at_the_start_of_a_line_is_ignored() {
    let mut model = four_lines();
    model.key_tapped(DOWN);
    model.key_tapped(LEFT);
    assert_eq!(cursor_of(&model), (0, 1));
    model.key_tapped('h' as u32);
    assert_eq!(cursor_of(&model), (0, 1));
    model.key_tapped(BACKSPACE);
    assert_eq!(cursor_of(&model), (0, 1));
}

#[test]
fn up_on_the_first_line_and_down_on_the_last_are_ignored() {
    let mut model = four_lines();
    model.key_tapped(RIGHT);
    model.key_tapped(UP);
    assert_eq!(cursor_of(&model), (1, 0));
    press(&mut model, "jjjl");
    assert_eq!(cursor_of(&model), (1, 3));
    model.key_tapped(DOWN);
    assert_eq!(cursor_of(&model), (1, 3));
}

#[test]
fn vertical_moves_fit_the_column_to_the_line() {
    let mut model = four_lines();
    press(&mut model, "jllllllllllll");
    assert_eq!(cursor_of(&model), (12, 1));
    model.key_tapped('j' as u32);
    assert_eq!(cursor_of(&model), (0, 2));
    model.key_tapped('k' as u32);
    assert_eq!(cursor_of(&model), (0, 1));
}

#[test]
fn enter_in_normal_mode_goes_to_the_start_of_the_next_line() {
    let mut model = four_lines();
    press(&mut model, "lll");
    model.key_tapped(ENTER);
    assert_eq!(cursor_of(&model), (0, 1));
    press(&mut model, "jjll");
    model.key_tapped(ENTER);
    assert_eq!(cursor_of(&model), (2, 3));
}

#[test]
fn insert_then_undo_restores_the_line() {
    let mut model = model_with("Hello world");
    press(&mut model, "lllli");
    model.key_tapped('X' as u32);
    assert_eq!(lines_of(&model), vec!["HellXo world"]);
    assert_eq!(cursor_of(&model), (5, 0));
    model.key_tapped(ESCAPE);
    model.key_tapped('u' as u32);
    assert_eq!(lines_of(&model), vec!["Hello world"]);
    assert_eq!(cursor_of(&model), (4, 0));
}

#[test]
fn undo_with_an_empty_history_does_nothing() {
    let mut model = four_lines();
    press(&mut model, "jll");
    model.key_tapped('u' as u32);
    assert_eq!(
        lines_of(&model),
        vec!["Hello world", "another sentence", "", "And a last sentence"]
    );
    assert_eq!(cursor_of(&model), (2, 1));
}

#[test]
fn undo_walks_backward_and_never_forward() {
    let mut model = model_with("");
    press(&mut model, "iab");
    model.key_tapped(ESCAPE);
    press(&mut model, "uuuu");
    assert_eq!(lines_of(&model), vec![""]);
    assert_eq!(cursor_of(&model), (0, 0));
}

#[test]
fn undo_of_a_deletion_does_not_bring_the_character_back() {
    let mut model = model_with("Hello");
    press(&mut model, "ix");
    model.key_tapped(BACKSPACE);
    model.key_tapped(ESCAPE);
    assert_eq!(lines_of(&model), vec!["Hello"]);
    // the deletion is undone by doing nothing, then the insertion by a deletion
    model.key_tapped('u' as u32);
    assert_eq!(lines_of(&model), vec!["Hello"]);
    assert_eq!(cursor_of(&model), (2, 0));
    model.key_tapped('u' as u32);
    assert_eq!(lines_of(&model), vec!["ello"]);
    assert_eq!(cursor_of(&model), (0, 0));
}

#[test]
fn undo_of_a_composite_action_is_one_step_that_restores_nothing() {
    let mut model = model_with("Hello");
    model.key_tapped('x' as u32);
    assert_eq!(lines_of(&model), vec!["ello"]);
    assert_eq!(cursor_of(&model), (0, 0));
    // the deletion inside the composite action was recorded after the whole
    model.key_tapped('u' as u32);
    assert_eq!(lines_of(&model), vec!["ello"]);
    assert_eq!(cursor_of(&model), (2, 0));
    model.key_tapped('u' as u32);
    assert_eq!(lines_of(&model), vec!["ello"]);
    assert_eq!(cursor_of(&model), (1, 0));
    model.key_tapped('u' as u32);
    assert_eq!(lines_of(&model), vec!["ello"]);
    assert_eq!(cursor_of(&model), (1, 0));
}

#[test]
fn the_recorded_position_is_brought_back_into_the_document() {
    let mut model = model_with("ab\ncd");
    press(&mut model, "jlli");
    model.key_tapped('e' as u32);
    assert_eq!(lines_of(&model), vec!["ab", "cde"]);
    model.set_text("x".to_string());
    model.key_tapped(ESCAPE);
    model.key_tapped('u' as u32);
    assert_eq!(lines_of(&model), vec![""]);
    assert_eq!(cursor_of(&model), (0, 0));
}

#[test]
fn yank_on_one_line_then_put() {
    let mut model = four_lines();
    press(&mut model, "jvllllyjp");
    assert_eq!(model.get_lines()[2], "anoth");
    assert!(model.get_selection().is_none());
    assert_eq!(cursor_of(&model), (0, 2));
    press(&mut model, "kllp");
    assert_eq!(model.get_lines()[1], "ananothother sentence");
    assert_eq!(cursor_of(&model), (2, 1));
}

#[test]
fn yank_over_two_lines_then_put() {
    let mut model = four_lines();
    press(&mut model, "wvjhhhy");
    assert_eq!(cursor_of(&model), (3, 1));
    press(&mut model, "jp");
    assert_eq!(
        lines_of(&model),
        vec!["Hello world", "another sentence", "worldanot", "And a last sentence"]
    );
}

#[test]
fn yank_over_several_lines_then_put() {
    let mut model = four_lines();
    press(&mut model, "wvjjjlly");
    assert_eq!(cursor_of(&model), (2, 3));
    press(&mut model, "kp");
    assert_eq!(
        lines_of(&model),
        vec![
            "Hello world",
            "another sentence",
            "worldanother sentenceAnd",
            "And a last sentence"
        ]
    );
}

#[test]
fn yank_of_a_selection_made_backward() {
    let mut model = model_with("Hello world");
    press(&mut model, "llllllvhhhy");
    assert_eq!(cursor_of(&model), (3, 0));
    press(&mut model, "0Gp");
    assert_eq!(lines_of(&model), vec!["lo wHello world"]);
}

#[test]
fn yank_up_to_the_end_of_the_line() {
    let mut model = model_with("abc\n");
    press(&mut model, "lvlly");
    assert_eq!(cursor_of(&model), (3, 0));
    press(&mut model, "hhhp");
    assert_eq!(lines_of(&model), vec!["bcabc"]);
}

#[test]
fn yank_without_a_selection_keeps_the_register() {
    let mut model = model_with("abc");
    press(&mut model, "vlyy");
    press(&mut model, "p");
    assert_eq!(lines_of(&model), vec!["aabbc"]);
}

#[test]
fn put_with_an_empty_register_does_nothing() {
    let mut model = four_lines();
    press(&mut model, "jp");
    assert_eq!(
        lines_of(&model),
        vec!["Hello world", "another sentence", "", "And a last sentence"]
    );
    assert_eq!(cursor_of(&model), (0, 1));
}

#[test]
fn the_register_survives_a_change_of_mode() {
    let mut model = model_with("abc");
    press(&mut model, "vly");
    press(&mut model, "i");
    model.key_tapped(ESCAPE);
    press(&mut model, ":");
    model.key_tapped(ENTER);
    press(&mut model, "p");
    assert_eq!(lines_of(&model), vec!["aabbc"]);
}

#[test]
fn the_selection_follows_the_cursor() {
    let mut model = four_lines();
    press(&mut model, "llv");
    let selection = model.get_selection().unwrap();
    assert_eq!(*selection.start(), Cursor { x: 2, y: 0 });
    assert_eq!(*selection.end(), Cursor { x: 2, y: 0 });
    press(&mut model, "jl");
    let selection = model.get_selection().unwrap();
    assert_eq!(*selection.start(), Cursor { x: 2, y: 0 });
    assert_eq!(*selection.end(), Cursor { x: 3, y: 1 });
    press(&mut model, "kh");
    model.key_tapped('h' as u32);
    let selection = model.get_selection().unwrap();
    assert_eq!(*selection.start(), Cursor { x: 1, y: 0 });
    assert_eq!(*selection.end(), Cursor { x: 2, y: 0 });
    assert_eq!(
        model.get_status_message(),
        "   Press F1 to quit  |  Normal Mode  |  selecting"
    );
}

#[test]
fn the_selection_follows_every_change_of_the_cursor() {
    let mut model = four_lines();
    press(&mut model, "jlv3G");
    let selection = model.get_selection().unwrap();
    assert_eq!(*selection.start(), Cursor { x: 1, y: 1 });
    assert_eq!(*selection.end(), Cursor { x: 0, y: 3 });
    press(&mut model, "iab");
    let selection = model.get_selection().unwrap();
    assert_eq!(*selection.start(), Cursor { x: 1, y: 1 });
    assert_eq!(*selection.end(), Cursor { x: 2, y: 3 });
    model.key_tapped(ENTER);
    let selection = model.get_selection().unwrap();
    assert_eq!(*selection.end(), Cursor { x: 0, y: 4 });
    model.key_tapped(BACKSPACE);
    let selection = model.get_selection().unwrap();
    assert_eq!(*selection.end(), Cursor { x: 2, y: 3 });
    model.key_tapped(ESCAPE);
    press(&mut model, "u");
    assert_eq!(cursor_of(&model), (1, 3));
    let selection = model.get_selection().unwrap();
    assert_eq!(*selection.end(), Cursor { x: 1, y: 3 });
    press(&mut model, "u");
    assert_eq!(cursor_of(&model), (3, 3));
    let selection = model.get_selection().unwrap();
    assert_eq!(*selection.end(), Cursor { x: 3, y: 3 });
    model.reset_cursor();
    let selection = model.get_selection().unwrap();
    assert_eq!(*selection.start(), Cursor { x: 0, y: 0 });
    assert_eq!(*selection.end(), Cursor { x: 1, y: 1 });
}

#[test]
fn toggling_twice_and_escape_close_the_selection() {
    let mut model = four_lines();
    press(&mut model, "v");
    assert!(model.get_selection().is_some());
    press(&mut model, "v");
    assert!(model.get_selection().is_none());
    press(&mut model, "v");
    model.key_tapped(ESCAPE);
    assert!(model.get_selection().is_none());
    model.key_tapped(ESCAPE);
    assert!(model.get_selection().is_none());
}

#[test]
fn find_forward_and_repeat() {
    let mut model = model_with("Hello world");
    press(&mut model, "fo");
    assert_eq!(cursor_of(&model), (4, 0));
    press(&mut model, ";");
    assert_eq!(cursor_of(&model), (7, 0));
    press(&mut model, ";");
    assert_eq!(cursor_of(&model), (7, 0));
}

#[test]
fn find_backward() {
    let mut model = model_with("Hello world");
    press(&mut model, "wwFo");
    assert_eq!(cursor_of(&model), (7, 0));
    press(&mut model, ";");
    assert_eq!(cursor_of(&model), (4, 0));
    press(&mut model, "FH");
    assert_eq!(cursor_of(&model), (0, 0));
}

#[test]
fn repeat_without_an_earlier_search_does_nothing() {
    let mut model = model_with("Hello world");
    press(&mut model, "l;");
    assert_eq!(cursor_of(&model), (1, 0));
    assert_eq!(lines_of(&model), vec!["Hello world"]);
}

#[test]
fn escape_while_buffering_does_nothing_and_keeps_buffering() {
    let mut model = model_with("Hello world");
    press(&mut model, "f");
    assert_eq!(
        model.get_status_message(),
        "   Press F1 to quit  |  Normal Mode (buffering)  |  "
    );
    model.key_tapped(ESCAPE);
    assert_eq!(
        model.get_status_message(),
        "   Press F1 to quit  |  Normal Mode (buffering)  |  "
    );
    press(&mut model, "o");
    assert_eq!(cursor_of(&model), (4, 0));
    assert_eq!(model.get_status_message(), "   Press F1 to quit  |  Normal Mode  |  ");
}

#[test]
fn replace_puts_the_key_in_place_of_the_character() {
    let mut model = model_with("Hello world");
    press(&mut model, "llllrX");
    assert_eq!(lines_of(&model), vec!["HellX world"]);
    assert_eq!(cursor_of(&model), (4, 0));
}

#[test]
fn delete_under_the_cursor() {
    let mut model = model_with("Hello");
    press(&mut model, "lx");
    assert_eq!(lines_of(&model), vec!["Hllo"]);
    assert_eq!(cursor_of(&model), (1, 0));
    press(&mut model, "xxx");
    assert_eq!(lines_of(&model), vec!["H"]);
    assert_eq!(cursor_of(&model), (1, 0));
    press(&mut model, "x");
    assert_eq!(lines_of(&model), vec![""]);
    assert_eq!(cursor_of(&model), (0, 0));
    press(&mut model, "x");
    assert_eq!(lines_of(&model), vec![""]);
}

#[test]
fn open_a_line_below() {
    let mut model = model_with("Hello world\nanother sentence");
    press(&mut model, "lllo");
    assert_eq!(lines_of(&model), vec!["Hello world", "", "another sentence"]);
    assert_eq!(cursor_of(&model), (0, 1));
    assert_eq!(model.get_status_message(), "   Press F1 to quit  |  Insert Mode  |  ");
    press(&mut model, "new");
    assert_eq!(lines_of(&model), vec!["Hello world", "new", "another sentence"]);
}

#[test]
fn open_a_line_above_breaks_the_line_above_at_the_cursor() {
    let mut model = model_with("Hello world\nanother sentence");
    press(&mut model, "jlllO");
    assert_eq!(lines_of(&model), vec!["Hel", "lo world", "another sentence"]);
    assert_eq!(cursor_of(&model), (0, 1));
    assert_eq!(model.get_status_message(), "   Press F1 to quit  |  Insert Mode  |  ");
}

#[test]
fn jump_to_a_line() {
    let mut model = four_lines();
    press(&mut model, "lll2G");
    assert_eq!(cursor_of(&model), (0, 2));
    press(&mut model, "0G");
    assert_eq!(cursor_of(&model), (0, 0));
    press(&mut model, "lll03G");
    assert_eq!(cursor_of(&model), (0, 3));
}

#[test]
fn jump_to_the_line_count_lands_on_the_last_line() {
    let mut model = four_lines();
    press(&mut model, "ll4G");
    assert_eq!(cursor_of(&model), (0, 3));
}

#[test]
fn jump_beyond_the_document_is_ignored() {
    let mut model = four_lines();
    press(&mut model, "jll5G");
    assert_eq!(cursor_of(&model), (2, 1));
    press(&mut model, "99999999999999999999999999G");
    assert_eq!(cursor_of(&model), (2, 1));
}

#[test]
fn a_number_followed_by_another_key_does_nothing() {
    let mut model = four_lines();
    press(&mut model, "2j");
    assert_eq!(cursor_of(&model), (0, 0));
    assert_eq!(model.get_status_message(), "   Press F1 to quit  |  Normal Mode  |  ");
    press(&mut model, "j");
    assert_eq!(cursor_of(&model), (0, 1));
}

#[test]
fn repeat_after_a_jump_jumps_again() {
    let mut model = four_lines();
    press(&mut model, "2Gk;");
    assert_eq!(cursor_of(&model), (0, 2));
}

#[test]
fn word_keys_move_by_words() {
    let mut model = model_with("one two three\nfour");
    press(&mut model, "ww");
    assert_eq!(cursor_of(&model), (8, 0));
    press(&mut model, "b");
    assert_eq!(cursor_of(&model), (4, 0));
    press(&mut model, "ww");
    assert_eq!(cursor_of(&model), (0, 1));
    press(&mut model, "b");
    assert_eq!(cursor_of(&model), (8, 0));
    press(&mut model, "www");
    assert_eq!(cursor_of(&model), (3, 1));
    press(&mut model, "b");
    assert_eq!(cursor_of(&model), (0, 1));
}

#[test]
fn typing_in_insert_mode() {
    let mut model = model_with("");
    press(&mut model, "iHi there");
    assert_eq!(lines_of(&model), vec!["Hi there"]);
    assert_eq!(cursor_of(&model), (8, 0));
    model.key_tapped(LEFT);
    model.key_tapped(LEFT);
    press(&mut model, "!");
    assert_eq!(lines_of(&model), vec!["Hi the!re"]);
    model.key_tapped(0xE9);
    assert_eq!(lines_of(&model), vec!["Hi the!\u{e9}re"]);
    assert_eq!(cursor_of(&model), (8, 0));
}

#[test]
fn a_key_code_that_is_no_character_inserts_nothing() {
    let mut model = model_with("ab");
    press(&mut model, "li");
    model.key_tapped(0xD800);
    model.key_tapped(0x110000);
    model.key_tapped(u32::MAX);
    assert_eq!(lines_of(&model), vec!["ab"]);
    assert_eq!(cursor_of(&model), (1, 0));
}

#[test]
fn enter_breaks_the_line_and_backspace_joins_it_again() {
    let mut model = model_with("Hello world");
    press(&mut model, "llllli");
    model.key_tapped(ENTER);
    assert_eq!(lines_of(&model), vec!["Hello", " world"]);
    assert_eq!(cursor_of(&model), (0, 1));
    model.key_tapped(BACKSPACE);
    assert_eq!(lines_of(&model), vec!["Hello world"]);
    assert_eq!(cursor_of(&model), (5, 0));
    model.key_tapped(BACKSPACE);
    assert_eq!(lines_of(&model), vec!["Hell world"]);
    assert_eq!(cursor_of(&model), (4, 0));
}

#[test]
fn backspace_at_the_start_of_the_document_does_nothing() {
    let mut model = model_with("ab");
    press(&mut model, "i");
    model.key_tapped(BACKSPACE);
    assert_eq!(lines_of(&model), vec!["ab"]);
    assert_eq!(cursor_of(&model), (0, 0));
}

#[test]
fn text_beyond_ascii_is_edited_by_characters() {
    let mut model = model_with("h\u{e9}llo w\u{f6}rld");
    press(&mut model, "w");
    assert_eq!(cursor_of(&model), (6, 0));
    press(&mut model, "f\u{f6}");
    assert_eq!(cursor_of(&model), (7, 0));
    press(&mut model, "x");
    assert_eq!(lines_of(&model), vec!["h\u{e9}llo wrld"]);
    press(&mut model, "0Gvly");
    press(&mut model, "p");
    assert_eq!(lines_of(&model), vec!["hh\u{e9}\u{e9}llo wrld"]);
}

#[test]
fn command_w_asks_for_a_save_and_returns_to_normal_mode() {
    let mut model = model_with("one\ntwo\n\nfour");
    press(&mut model, ":");
    assert_eq!(model.get_status_message(), "   Press F1 to quit  |  Command:   |  ");
    press(&mut model, "w");
    assert_eq!(model.get_status_message(), "   Press F1 to quit  |  Command: w  |  ");
    assert!(model.take_save_request().is_none());
    model.key_tapped(ENTER);
    assert_eq!(model.get_status_message(), "   Press F1 to quit  |  Normal Mode  |  ");
    assert!(!model.exit_requested());
    assert_eq!(model.take_save_request(), Some("one\ntwo\n\nfour".to_string()));
    assert_eq!(model.take_save_request(), None);
}

#[test]
fn command_q_asks_for_the_end_without_a_save() {
    let mut model = model_with("one");
    press(&mut model, ":q");
    assert!(!model.exit_requested());
    model.key_tapped(ENTER);
    assert!(model.exit_requested());
    assert_eq!(model.take_save_request(), None);
}

#[test]
fn commands_wq_and_x_ask_for_a_save_and_the_end() {
    let mut model = model_with("one\ntwo");
    press(&mut model, ":wq");
    model.key_tapped(ENTER);
    assert!(model.exit_requested());
    assert_eq!(model.take_save_request(), Some("one\ntwo".to_string()));

    let mut model = model_with("one\ntwo");
    press(&mut model, ":x");
    model.key_tapped(ENTER);
    assert!(model.exit_requested());
    assert_eq!(model.take_save_request(), Some("one\ntwo".to_string()));
}

#[test]
fn an_unknown_command_is_dropped() {
    let mut model = model_with("one");
    press(&mut model, ":print");
    model.key_tapped(ENTER);
    assert_eq!(model.get_status_message(), "   Press F1 to quit  |  Normal Mode  |  ");
    assert!(!model.exit_requested());
    assert_eq!(model.take_save_request(), None);
    assert_eq!(lines_of(&model), vec!["one"]);
    press(&mut model, ":");
    assert_eq!(model.get_status_message(), "   Press F1 to quit  |  Command:   |  ");
}

#[test]
fn backspace_edits_the_command_and_escape_does_nothing() {
    let mut model = model_with("one");
    press(&mut model, ":wx");
    model.key_tapped(BACKSPACE);
    assert_eq!(model.get_status_message(), "   Press F1 to quit  |  Command: w  |  ");
    model.key_tapped(ESCAPE);
    assert_eq!(model.get_status_message(), "   Press F1 to quit  |  Command: w  |  ");
    model.key_tapped(BACKSPACE);
    model.key_tapped(BACKSPACE);
    model.key_tapped(BACKSPACE);
    assert_eq!(model.get_status_message(), "   Press F1 to quit  |  Command:   |  ");
    press(&mut model, "q");
    model.key_tapped(ENTER);
    assert!(model.exit_requested());
}

#[test]
fn keys_in_command_mode_leave_the_document_alone() {
    let mut model = four_lines();
    press(&mut model, "jl:");
    press(&mut model, "hjklxpu");
    model.key_tapped(LEFT);
    model.key_tapped(0xD800);
    assert_eq!(cursor_of(&model), (1, 1));
    assert_eq!(
        lines_of(&model),
        vec!["Hello world", "another sentence", "", "And a last sentence"]
    );
    assert_eq!(
        model.get_status_message(),
        "   Press F1 to quit  |  Command: hjklxpu\u{104}  |  "
    );
}

#[test]
fn nothing_is_applied_after_the_end_was_asked_for() {
    let mut model = model_with("one");
    press(&mut model, ":q");
    model.key_tapped(ENTER);
    assert!(model.exit_requested());
    press(&mut model, "ix");
    model.key_tapped(RIGHT);
    model.force_insert_mode();
    assert_eq!(lines_of(&model), vec!["one"]);
    assert_eq!(cursor_of(&model), (0, 0));
    assert_eq!(model.get_status_message(), "   Press F1 to quit  |  Command: q  |  ");
}

#[test]
fn contents_joins_the_lines_with_line_feeds() {
    assert_eq!(four_lines().contents(), "Hello world\nanother sentence\n\nAnd a last sentence");
    assert_eq!(model_with("").contents(), "");
    assert_eq!(model_with("one").contents(), "one");
}

#[test]
fn the_screen_scrolls_with_the_cursor() {
    let mut model = model_with("a\nb\nc\nd\ne");
    model.set_screen_h(2);
    model.set_screen_w(80);
    assert_eq!(model.get_screen_info().top, 0);
    press(&mut model, "j");
    assert_eq!(model.get_screen_info().top, 0);
    press(&mut model, "j");
    assert_eq!(model.get_screen_info().top, 1);
    press(&mut model, "j");
    assert_eq!(model.get_screen_info().top, 2);
    press(&mut model, "k");
    assert_eq!(model.get_screen_info().top, 2);
    press(&mut model, "k");
    assert_eq!(model.get_screen_info().top, 1);
    assert_eq!(model.get_screen_info().h, 2);
    assert_eq!(model.get_screen_info().w, 80);
}

#[test]
fn reset_cursor_goes_to_the_top() {
    let mut model = four_lines();
    press(&mut model, "jjjll");
    model.reset_cursor();
    assert_eq!(cursor_of(&model), (0, 0));
}
