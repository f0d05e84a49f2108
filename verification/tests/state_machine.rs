//! Tests of the update dispatcher, the two-key jump, the search-mode round
//! trip and the character-position text editing.

use log_viewer::messages::Message;
use log_viewer::model::{
    update, Filter, Model, RunningState, SearchMode, JUMP_TOP_OFFSET,
};
use log_viewer::pipeline::get_filtered_logs;
use log_viewer::view::{handle_key, line_category, Category, Key};
use log_viewer::Config;

fn strings(v: &[&str]) -> Vec<String> {
    v.iter().map(|s| s.to_string()).collect()
}

fn fresh_model() -> Model {
    let args = strings(&["prog", "some.log"]);
    Model::new(Config::new(&args).unwrap())
}

#[test]
fn config_needs_a_file_path() {
    let err = Config::new(&strings(&["prog"]));
    assert!(err.is_err());
    assert_eq!(err.err().unwrap(), "Must provide a file path.");
    let ok = Config::new(&strings(&["prog", "x.log"])).unwrap();
    assert_eq!(ok.file_path, "x.log");
}

#[test]
fn quit_is_the_only_terminal_transition() {
    let mut model = fresh_model();
    assert_eq!(model.running, RunningState::Running);
    update(&mut model, Message::MoveUp);
    assert_eq!(model.running, RunningState::Running);
    update(&mut model, Message::Quit);
    assert_eq!(model.running, RunningState::Done);
}

#[test]
fn move_up_and_down_change_the_offset() {
    let mut model = fresh_model();
    update(&mut model, Message::MoveUp);
    update(&mut model, Message::MoveUp);
    assert_eq!(model.view_offset, 2);
    update(&mut model, Message::MoveDown);
    assert_eq!(model.view_offset, 1);
    update(&mut model, Message::MoveDown);
    update(&mut model, Message::MoveDown);
    // already pinned to the newest line: stays at zero
    assert_eq!(model.view_offset, 0);
}

#[test]
fn page_moves_use_the_view_height() {
    let mut model = fresh_model();
    model.set_view_height(7);
    update(&mut model, Message::MoveUpPage);
    assert_eq!(model.view_offset, 7);
    update(&mut model, Message::MoveUp);
    update(&mut model, Message::MoveDownPage);
    assert_eq!(model.view_offset, 1);
    update(&mut model, Message::MoveDownPage);
    assert_eq!(model.view_offset, 0);
}

#[test]
fn apply_filter_resets_the_offset() {
    let mut model = fresh_model();
    update(&mut model, Message::MoveUp);
    update(&mut model, Message::ApplyFilter(Filter::ERROR));
    assert_eq!(model.log_filter, Filter::ERROR);
    assert_eq!(model.view_offset, 0);
}

#[test]
fn two_key_jump_moves_to_the_oldest_window() {
    let mut model = fresh_model();
    model.refresh_logs(strings(&["l1", "l2", "l3", "l4", "l5"]));
    model.set_view_height(2);
    update(&mut model, Message::MoveTop);
    // the first key alone has no visible effect
    assert_eq!(model.view_offset, 0);
    update(&mut model, Message::MoveTop);
    assert_eq!(model.view_offset, JUMP_TOP_OFFSET);
    let shown = get_filtered_logs(&mut model);
    assert_eq!(shown, strings(&["l1", "l2"]));
}

#[test]
fn pending_jump_is_cancelled_by_another_key() {
    let mut model = fresh_model();
    update(&mut model, Message::MoveUp);
    update(&mut model, Message::MoveUp);
    update(&mut model, Message::MoveTop);
    update(&mut model, Message::MoveDown);
    // the other key's normal action happened, and no jump
    assert_eq!(model.view_offset, 1);
    update(&mut model, Message::MoveTop);
    assert_eq!(model.view_offset, 1);
}

#[test]
fn search_round_trip_clears_query_and_cursor() {
    let mut model = fresh_model();
    update(&mut model, Message::ToggleSearch);
    assert_eq!(model.search_mode, SearchMode::Search);
    for c in ['h', 'é', 'j'] {
        update(&mut model, Message::AddChar(c));
    }
    assert_eq!(model.search_input, vec!['h', 'é', 'j']);
    assert_eq!(model.cursor_pos, 3);
    update(&mut model, Message::ToggleSearch);
    assert_eq!(model.search_mode, SearchMode::Inactive);
    assert!(model.search_input.is_empty());
    assert_eq!(model.cursor_pos, 0);
}

#[test]
fn editing_respects_character_positions() {
    let mut model = fresh_model();
    update(&mut model, Message::ToggleSearch);
    for c in ['a', 'é', '日', '🙂'] {
        update(&mut model, Message::AddChar(c));
    }
    assert_eq!(model.cursor_pos, 4);
    assert_eq!(model.byte_index(), 1 + 2 + 3 + 4);
    update(&mut model, Message::MoveCursorLeft);
    update(&mut model, Message::MoveCursorLeft);
    assert_eq!(model.cursor_pos, 2);
    assert_eq!(model.byte_index(), 3);
    // insert between 'é' and '日', then delete it again
    update(&mut model, Message::AddChar('x'));
    assert_eq!(model.search_input, vec!['a', 'é', 'x', '日', '🙂']);
    assert_eq!(model.cursor_pos, 3);
    update(&mut model, Message::Delete);
    assert_eq!(model.search_input, vec!['a', 'é', '日', '🙂']);
    assert_eq!(model.cursor_pos, 2);
    // deleting at the left edge is a no-op
    update(&mut model, Message::MoveCursorLeft);
    update(&mut model, Message::MoveCursorLeft);
    update(&mut model, Message::MoveCursorLeft);
    assert_eq!(model.cursor_pos, 0);
    update(&mut model, Message::Delete);
    assert_eq!(model.search_input, vec!['a', 'é', '日', '🙂']);
}

#[test]
fn cursor_cannot_leave_the_query() {
    let mut model = fresh_model();
    update(&mut model, Message::AddChar('a'));
    update(&mut model, Message::MoveCursorRight);
    update(&mut model, Message::MoveCursorRight);
    assert_eq!(model.cursor_pos, 1);
    assert_eq!(model.clamp_cursor(17), 1);
    assert_eq!(model.clamp_cursor(0), 0);
}

#[test]
fn keys_in_normal_mode_are_navigation() {
    let model = fresh_model();
    assert_eq!(handle_key(Key::Char('j'), false, &model), Some(Message::MoveDown));
    assert_eq!(handle_key(Key::Up, false, &model), Some(Message::MoveUp));
    assert_eq!(handle_key(Key::Char('q'), false, &model), Some(Message::Quit));
    assert_eq!(handle_key(Key::Char('g'), false, &model), Some(Message::MoveTop));
    assert_eq!(handle_key(Key::Char('G'), false, &model), Some(Message::MoveBottom));
    assert_eq!(handle_key(Key::Char('/'), false, &model), Some(Message::ToggleSearch));
    assert_eq!(handle_key(Key::Char('u'), true, &model), Some(Message::MoveUpPage));
    assert_eq!(handle_key(Key::Char('d'), true, &model), Some(Message::MoveDownPage));
    // category keys are no-ops unless the picker is open
    assert_eq!(handle_key(Key::Char('i'), false, &model), None);
    assert_eq!(
        handle_key(Key::Char('f'), false, &model),
        Some(Message::ApplyFilter(Filter::SELECT))
    );
}

#[test]
fn category_keys_work_only_in_the_picker() {
    let mut model = fresh_model();
    update(&mut model, Message::ApplyFilter(Filter::SELECT));
    assert_eq!(
        handle_key(Key::Char('i'), false, &model),
        Some(Message::ApplyFilter(Filter::INFO))
    );
    assert_eq!(
        handle_key(Key::Char('w'), false, &model),
        Some(Message::ApplyFilter(Filter::WARNING))
    );
    assert_eq!(
        handle_key(Key::Char('e'), false, &model),
        Some(Message::ApplyFilter(Filter::ERROR))
    );
    assert_eq!(
        handle_key(Key::Char('c'), false, &model),
        Some(Message::ApplyFilter(Filter::CRITICAL))
    );
    assert_eq!(
        handle_key(Key::Char('d'), false, &model),
        Some(Message::ApplyFilter(Filter::DEBUG))
    );
    assert_eq!(
        handle_key(Key::Char('f'), false, &model),
        Some(Message::ApplyFilter(Filter::NONE))
    );
}

#[test]
fn keys_in_search_mode_edit_the_query() {
    let mut model = fresh_model();
    update(&mut model, Message::ToggleSearch);
    assert_eq!(handle_key(Key::Char('j'), false, &model), Some(Message::AddChar('j')));
    assert_eq!(handle_key(Key::Backspace, false, &model), Some(Message::Delete));
    assert_eq!(handle_key(Key::Left, false, &model), Some(Message::MoveCursorLeft));
    assert_eq!(handle_key(Key::Right, false, &model), Some(Message::MoveCursorRight));
    assert_eq!(handle_key(Key::Esc, false, &model), Some(Message::ToggleSearch));
    assert_eq!(handle_key(Key::Enter, false, &model), Some(Message::ToggleSearch));
    assert_eq!(handle_key(Key::Char('c'), true, &model), Some(Message::ToggleSearch));
    assert_eq!(handle_key(Key::Up, false, &model), None);
}

#[test]
fn line_categories_follow_the_keywords() {
    assert_eq!(line_category("x INFO y"), Category::Info);
    assert_eq!(line_category("x WARNING y"), Category::Warning);
    assert_eq!(line_category("x ERROR y"), Category::Error);
    assert_eq!(line_category("x CRITICAL y"), Category::Critical);
    assert_eq!(line_category("plain text"), Category::Default);
    // priority order: the first keyword wins
    assert_eq!(line_category("INFO before WARNING"), Category::Info);
}
