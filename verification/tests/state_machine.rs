use command_menu::state::Action;
use command_menu::state::App;
use command_menu::state::AppMode;
use command_menu::state::KeyInput;

fn type_chars(app: &mut App, text: &str) {
    for c in text.chars() {
        let act = app.handle_key(KeyInput::CharKey(c));
        assert_eq!(act, Action::Continue);
    }
}

#[test]
fn new_starts_in_normal_mode_with_all_visible() {
    let app = App::new(false);
    assert_eq!(app.mode, AppMode::Normal);
    assert_eq!(
        app.commands,
        vec![
            "ls".to_string(),
            "echo \"testing\"".to_string(),
            "ifconfig".to_string(),
            "uname -a".to_string(),
            "whoami".to_string(),
            "ps aux".to_string(),
        ]
    );
    assert_eq!(app.filtered_commands, vec![0, 1, 2, 3, 4, 5]);
    assert_eq!(app.selected_index, Some(0));
    assert!(app.search_input.is_empty());
    assert_eq!(app.command_output, "");
    assert_eq!(app.spinner_state, 0);
    assert!(!app.output_attached);
}

#[test]
fn new_windows_commands() {
    let app = App::new(true);
    assert_eq!(
        app.commands,
        vec![
            "dir".to_string(),
            "echo \"testing\"".to_string(),
            "ipconfig".to_string(),
            "systeminfo".to_string(),
            "whoami".to_string(),
            "tasklist".to_string(),
        ]
    );
    assert!(app.is_windows);
}

#[test]
fn filter_i_keeps_substring_matches_in_order() {
    let mut app = App::new(false);
    app.handle_key(KeyInput::CharKey('/'));
    assert_eq!(app.mode, AppMode::Searching);
    type_chars(&mut app, "i");
    // "echo \"testing\"", "ifconfig" and "whoami" contain an `i`.
    assert_eq!(app.filtered_commands, vec![1, 2, 4]);
    // the old selection 0 is no longer visible: first visible entry wins
    assert_eq!(app.selected_index, Some(1));
}

#[test]
fn filter_if_selects_exactly_ifconfig() {
    let mut app = App::new(false);
    app.handle_key(KeyInput::CharKey('/'));
    type_chars(&mut app, "if");
    assert_eq!(app.filtered_commands, vec![2]);
    assert_eq!(app.selected_index, Some(2));
    assert_eq!(app.commands[2], "ifconfig");
}

#[test]
fn filter_without_match_clears_selection() {
    let mut app = App::new(false);
    app.handle_key(KeyInput::CharKey('/'));
    type_chars(&mut app, "zzz");
    assert!(app.filtered_commands.is_empty());
    assert_eq!(app.selected_index, None);
}

#[test]
fn filter_is_case_insensitive() {
    let mut app = App::new(false);
    app.handle_key(KeyInput::CharKey('/'));
    type_chars(&mut app, "LS");
    assert_eq!(app.filtered_commands, vec![0]);
    assert_eq!(app.selected_index, Some(0));
}

#[test]
fn backspace_shortens_the_filter() {
    let mut app = App::new(false);
    app.handle_key(KeyInput::CharKey('/'));
    type_chars(&mut app, "iz");
    assert!(app.filtered_commands.is_empty());
    app.handle_key(KeyInput::BackspaceKey);
    assert_eq!(app.search_input, vec!['i']);
    assert_eq!(app.filtered_commands, vec![1, 2, 4]);
    // backspace on an empty filter stays a no-op
    app.handle_key(KeyInput::BackspaceKey);
    let act = app.handle_key(KeyInput::BackspaceKey);
    assert_eq!(act, Action::Continue);
    assert!(app.search_input.is_empty());
    assert_eq!(app.filtered_commands, vec![0, 1, 2, 3, 4, 5]);
}

#[test]
fn cancel_in_search_clears_filter_and_reselects() {
    let mut app = App::new(false);
    app.handle_key(KeyInput::CharKey('/'));
    type_chars(&mut app, "zzz");
    assert_eq!(app.selected_index, None);
    let act = app.handle_key(KeyInput::EscKey);
    assert_eq!(act, Action::Continue);
    assert_eq!(app.mode, AppMode::Normal);
    assert!(app.search_input.is_empty());
    assert_eq!(app.filtered_commands, vec![0, 1, 2, 3, 4, 5]);
    assert_eq!(app.selected_index, Some(0));
}

#[test]
fn confirm_in_search_keeps_filter_and_selection() {
    let mut app = App::new(false);
    app.handle_key(KeyInput::CharKey('/'));
    type_chars(&mut app, "i");
    let act = app.handle_key(KeyInput::EnterKey);
    assert_eq!(act, Action::Continue);
    assert_eq!(app.mode, AppMode::Normal);
    assert_eq!(app.search_input, vec!['i']);
    assert_eq!(app.filtered_commands, vec![1, 2, 4]);
    assert_eq!(app.selected_index, Some(1));
}

#[test]
fn quit_key_with_filter_clears_it_first() {
    let mut app = App::new(false);
    app.handle_key(KeyInput::CharKey('/'));
    type_chars(&mut app, "zzz");
    app.handle_key(KeyInput::EnterKey);
    assert_eq!(app.mode, AppMode::Normal);
    let act = app.handle_key(KeyInput::CharKey('q'));
    assert_eq!(act, Action::Continue);
    assert!(app.search_input.is_empty());
    assert_eq!(app.filtered_commands, vec![0, 1, 2, 3, 4, 5]);
    assert_eq!(app.selected_index, Some(0));
    // with the filter already empty, the quit key asks to exit
    let act = app.handle_key(KeyInput::CharKey('q'));
    assert_eq!(act, Action::Exit);
}

#[test]
fn navigation_moves_and_clamps() {
    let mut app = App::new(false);
    // at the top, moving up is a no-op
    app.handle_key(KeyInput::UpKey);
    assert_eq!(app.selected_index, Some(0));
    app.handle_key(KeyInput::CharKey('j'));
    assert_eq!(app.selected_index, Some(1));
    app.handle_key(KeyInput::DownKey);
    assert_eq!(app.selected_index, Some(2));
    app.handle_key(KeyInput::CharKey('k'));
    assert_eq!(app.selected_index, Some(1));
    for _ in 0..10 {
        app.handle_key(KeyInput::DownKey);
    }
    // clamped at the bottom, no wraparound
    assert_eq!(app.selected_index, Some(5));
    app.handle_key(KeyInput::DownKey);
    assert_eq!(app.selected_index, Some(5));
}

#[test]
fn navigation_round_trip_on_filtered_list() {
    let mut app = App::new(false);
    app.handle_key(KeyInput::CharKey('/'));
    type_chars(&mut app, "i");
    app.handle_key(KeyInput::EnterKey);
    assert_eq!(app.filtered_commands, vec![1, 2, 4]);
    app.handle_key(KeyInput::DownKey);
    assert_eq!(app.selected_index, Some(2));
    // up then down from an interior selection returns to it
    app.previous();
    assert_eq!(app.selected_index, Some(1));
    app.next();
    assert_eq!(app.selected_index, Some(2));
}

#[test]
fn navigation_noop_without_selection() {
    let mut app = App::new(false);
    app.handle_key(KeyInput::CharKey('/'));
    type_chars(&mut app, "zzz");
    app.handle_key(KeyInput::EnterKey);
    app.next();
    assert_eq!(app.selected_index, None);
    app.previous();
    assert_eq!(app.selected_index, None);
}

#[test]
fn confirm_key_asks_to_run_only_with_a_selection() {
    let mut app = App::new(false);
    let act = app.handle_key(KeyInput::EnterKey);
    assert_eq!(act, Action::RunSelected);
    // the key handling itself changes no state: the spawn may still fail
    assert_eq!(app.mode, AppMode::Normal);
    assert_eq!(app.selected_index, Some(0));

    let mut empty = App::new(false);
    empty.handle_key(KeyInput::CharKey('/'));
    type_chars(&mut empty, "zzz");
    empty.handle_key(KeyInput::EnterKey);
    let act = empty.handle_key(KeyInput::EnterKey);
    assert_eq!(act, Action::Continue);
    assert_eq!(empty.mode, AppMode::Normal);
}

#[test]
fn run_streams_output_until_cancelled() {
    let mut app = App::new(false);
    app.handle_key(KeyInput::DownKey);
    assert_eq!(app.commands[app.selected_index.unwrap()], "echo \"testing\"");
    let act = app.handle_key(KeyInput::EnterKey);
    assert_eq!(act, Action::RunSelected);
    app.command_output = "stale".to_string();
    app.begin_run();
    assert_eq!(app.mode, AppMode::Running);
    assert_eq!(app.command_output, "");
    assert!(app.output_attached);
    app.append_output(&vec!["testing".to_string()]);
    assert_eq!(app.command_output, "testing\n");
    // only the cancel key leaves running mode
    let act = app.handle_key(KeyInput::CharKey('q'));
    assert_eq!(act, Action::Continue);
    assert_eq!(app.mode, AppMode::Running);
    let act = app.handle_key(KeyInput::EscKey);
    assert_eq!(act, Action::DetachOutput);
    assert_eq!(app.mode, AppMode::Normal);
    assert!(!app.output_attached);
    // the buffer keeps what was captured
    assert_eq!(app.command_output, "testing\n");
}

#[test]
fn drain_with_no_pending_lines_changes_nothing() {
    let mut app = App::new(false);
    app.handle_key(KeyInput::EnterKey);
    app.begin_run();
    app.append_output(&vec!["one".to_string()]);
    let before = app.command_output.clone();
    app.append_output(&Vec::new());
    assert_eq!(app.command_output, before);
}

#[test]
fn output_lines_are_appended_in_order() {
    let mut app = App::new(false);
    app.handle_key(KeyInput::EnterKey);
    app.begin_run();
    app.append_output(&vec!["one".to_string(), "Error: two".to_string()]);
    assert_eq!(app.command_output, "one\nError: two\n");
    app.append_output(&vec!["three".to_string()]);
    assert_eq!(app.command_output, "one\nError: two\nthree\n");
}

#[test]
fn spinner_advances_once_per_interval() {
    let mut app = App::new(false);
    assert!(!app.update_spinner(99));
    assert_eq!(app.spinner_state, 0);
    assert!(app.update_spinner(100));
    assert_eq!(app.spinner_state, 1);
    // a long gap still advances by exactly one step
    assert!(app.update_spinner(100_000));
    assert_eq!(app.spinner_state, 2);
    assert!(app.update_spinner(150));
    assert_eq!(app.spinner_state, 3);
    assert!(app.update_spinner(100));
    assert_eq!(app.spinner_state, 0);
}

#[test]
fn spinner_chars_cycle() {
    let mut app = App::new(false);
    assert_eq!(app.get_spinner_char(), "\u{280B}");
    app.update_spinner(100);
    assert_eq!(app.get_spinner_char(), "\u{2819}");
    app.update_spinner(100);
    assert_eq!(app.get_spinner_char(), "\u{2839}");
    app.update_spinner(100);
    assert_eq!(app.get_spinner_char(), "\u{2838}");
    app.update_spinner(100);
    assert_eq!(app.get_spinner_char(), "\u{280B}");
}

#[test]
fn is_searching_follows_the_mode() {
    let mut app = App::new(false);
    assert!(!app.is_searching());
    app.handle_key(KeyInput::CharKey('/'));
    assert!(app.is_searching());
    app.handle_key(KeyInput::EnterKey);
    assert!(!app.is_searching());
}

#[test]
fn other_keys_change_nothing() {
    let mut app = App::new(false);
    let act = app.handle_key(KeyInput::OtherKey);
    assert_eq!(act, Action::Continue);
    assert_eq!(app.mode, AppMode::Normal);
    assert_eq!(app.selected_index, Some(0));
    let act = app.handle_key(KeyInput::CharKey('x'));
    assert_eq!(act, Action::Continue);
    assert_eq!(app.mode, AppMode::Normal);
    assert!(app.search_input.is_empty());
}

#[test]
fn update_filter_keeps_a_still_visible_selection() {
    let mut app = App::new(false);
    app.handle_key(KeyInput::DownKey);
    app.handle_key(KeyInput::DownKey);
    assert_eq!(app.selected_index, Some(2));
    app.search_input = vec!['i'];
    app.update_filter();
    assert_eq!(app.filtered_commands, vec![1, 2, 4]);
    // index 2 is still visible, so the selection stays
    assert_eq!(app.selected_index, Some(2));
}
