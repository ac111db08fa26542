use fossil::cli::Commands;
use fossil::config::Fossil;
use fossil::tui::app::{dig_target_from_input, tag_from_input, App, AppMode, CommandType};

fn sample() -> Vec<Fossil> {
    let mut a = Fossil::new("/a.txt".to_string(), b"a".to_vec());
    a.bury(Some("t".to_string()), b"a1").unwrap();
    a.bury(None, b"a2").unwrap();
    let mut b = Fossil::new("/b.txt".to_string(), b"b".to_vec());
    b.bury(Some("t".to_string()), b"b1").unwrap();
    let c = Fossil::new("/c.txt".to_string(), b"c".to_vec());
    vec![a, b, c]
}

#[test]
fn new_app_starts_in_normal_mode() {
    let app = App::new(sample(), 100);
    assert_eq!(app.cursor_idx, 0);
    assert!(app.select_fossils.is_empty());
    assert_eq!(app.mode, AppMode::Normal);
    assert_eq!(app.command_type, CommandType::General);
    assert_eq!(app.command_input, "");
    assert!(!app.should_quit);
    assert_eq!(app.status_message, None);
    assert_eq!(app.get_total_fossils(), 3);
    assert_eq!(app.get_total_versions(), 3);
    assert_eq!(app.get_tagged_versions_count(), 2);
}

#[test]
fn cursor_stays_within_the_list() {
    let mut app = App::new(sample(), 0);
    app.move_up();
    assert_eq!(app.cursor_idx, 0);
    app.move_down();
    app.move_down();
    app.move_down();
    assert_eq!(app.cursor_idx, 2);
    app.move_up();
    assert_eq!(app.cursor_idx, 1);
    let mut empty = App::new(Vec::new(), 0);
    empty.move_down();
    assert_eq!(empty.cursor_idx, 0);
}

#[test]
fn selection_toggles_and_lists_paths_in_order() {
    let mut app = App::new(sample(), 0);
    app.move_down();
    app.move_down();
    app.select_fossil();
    app.move_up();
    app.move_up();
    app.select_fossil();
    assert_eq!(app.get_selected_file_paths(), vec!["/a.txt".to_string(), "/c.txt".to_string()]);
    app.select_fossil();
    assert_eq!(app.get_selected_file_paths(), vec!["/c.txt".to_string()]);
}

#[test]
fn command_line_edits_only_when_open() {
    let mut app = App::new(sample(), 0);
    app.add_char_to_command('x');
    assert_eq!(app.command_input, "");
    app.enter_bury_mode();
    assert_eq!(app.mode, AppMode::Command);
    assert_eq!(app.command_type, CommandType::Bury);
    app.add_char_to_command('a');
    app.add_char_to_command('b');
    app.remove_char_from_command();
    assert_eq!(app.command_input, "a");
    app.exit_command_mode();
    assert_eq!(app.mode, AppMode::Normal);
    assert_eq!(app.command_input, "");
    app.remove_char_from_command();
    assert_eq!(app.command_input, "");
}

fn typed(app: &mut App, s: &str) {
    for c in s.chars() {
        app.add_char_to_command(c);
    }
}

#[test]
fn bury_command_takes_the_trimmed_tag() {
    let mut app = App::new(sample(), 0);
    app.select_fossil();
    app.enter_bury_mode();
    typed(&mut app, "  v1 ");
    let cmd = app.execute_command();
    assert_eq!(
        cmd,
        Some(Commands::Bury { tag: Some("v1".to_string()), files: vec!["/a.txt".to_string()] })
    );
    assert_eq!(app.mode, AppMode::Normal);
    app.enter_bury_mode();
    typed(&mut app, "   ");
    assert_eq!(
        app.execute_command(),
        Some(Commands::Bury { tag: None, files: vec!["/a.txt".to_string()] })
    );
}

#[test]
fn dig_command_reads_a_number_or_a_tag() {
    let mut app = App::new(sample(), 0);
    app.enter_dig_mode();
    typed(&mut app, " 12 ");
    assert_eq!(
        app.execute_command(),
        Some(Commands::Dig { tag: None, version: Some(12), files: vec![] })
    );
    app.enter_dig_mode();
    typed(&mut app, "stable");
    assert_eq!(
        app.execute_command(),
        Some(Commands::Dig { tag: Some("stable".to_string()), version: None, files: vec![] })
    );
    app.enter_dig_mode();
    assert_eq!(
        app.execute_command(),
        Some(Commands::Dig { tag: None, version: None, files: vec![] })
    );
    app.enter_dig_mode();
    typed(&mut app, "99999999999999999999999");
    assert_eq!(app.execute_command(), None);
    assert_eq!(app.status_message, Some("Invalid version number".to_string()));
    app.enter_command_mode();
    typed(&mut app, "anything");
    assert_eq!(app.execute_command(), None);
    assert_eq!(app.mode, AppMode::Normal);
}

#[test]
fn track_and_untrack_need_a_selection() {
    let mut app = App::new(sample(), 0);
    assert_eq!(app.execute_track(), None);
    assert_eq!(app.status_message, Some("No files selected to track".to_string()));
    assert_eq!(app.execute_untrack(), None);
    assert_eq!(app.status_message, Some("No files selected to untrack".to_string()));
    app.select_fossil();
    assert_eq!(app.execute_track(), Some(Commands::Track { files: vec!["/a.txt".to_string()] }));
    assert_eq!(
        app.execute_untrack(),
        Some(Commands::Untrack { files: vec!["/a.txt".to_string()] })
    );
    assert_eq!(app.execute_surface(), Commands::Surface);
    assert_eq!(
        app.execute_dig_with_params(None, Some(1)),
        Commands::Dig { tag: None, version: Some(1), files: vec!["/a.txt".to_string()] }
    );
    assert_eq!(
        app.execute_bury_with_tag(None),
        Commands::Bury { tag: None, files: vec!["/a.txt".to_string()] }
    );
}

#[test]
fn refresh_keeps_cursor_and_selection_in_bounds() {
    let mut app = App::new(sample(), 0);
    app.move_down();
    app.move_down();
    app.select_fossil();
    app.move_up();
    app.select_fossil();
    app.move_down();
    app.refresh_data(None, 50);
    assert_eq!(app.get_total_fossils(), 3);
    let mut fewer = sample();
    fewer.truncate(1);
    app.refresh_data(Some(fewer), 2000);
    assert_eq!(app.get_total_fossils(), 1);
    assert_eq!(app.cursor_idx, 0);
    assert!(app.select_fossils.is_empty());
    assert!(!app.should_auto_refresh(2999));
    assert!(app.should_auto_refresh(3000));
    assert!(!app.should_auto_refresh(10));
}

#[test]
fn cli_outcome_sets_the_status() {
    let mut app = App::new(sample(), 0);
    app.execute_cli_command(Ok(()), None, 5);
    assert_eq!(app.status_message, Some("Command executed successfully".to_string()));
    app.execute_cli_command(Err("boom".to_string()), Some(Vec::new()), 6);
    assert_eq!(app.status_message, Some("Command failed: boom".to_string()));
    assert_eq!(app.get_total_fossils(), 0);
    app.clear_status();
    assert_eq!(app.status_message, None);
    app.quit();
    assert!(app.should_quit);
}

#[test]
fn typed_lines_become_tags_and_targets() {
    assert_eq!(tag_from_input(String::new()), None);
    assert_eq!(tag_from_input("v1".to_string()), Some("v1".to_string()));
    assert_eq!(dig_target_from_input(String::new()), Some((None, None)));
    assert_eq!(dig_target_from_input("007".to_string()), Some((None, Some(7))));
    assert_eq!(dig_target_from_input("v2".to_string()), Some((Some("v2".to_string()), None)));
    assert_eq!(dig_target_from_input("12a".to_string()), Some((Some("12a".to_string()), None)));
    assert_eq!(dig_target_from_input("99999999999999999999999".to_string()), None);
}

#[test]
fn empty_selection_keeps_the_cursor() {
    let mut app = App::new(sample(), 0);
    app.move_down();
    assert_eq!(app.execute_track(), None);
    assert_eq!(app.cursor_idx, 1);
    assert_eq!(app.execute_untrack(), None);
    assert_eq!(app.cursor_idx, 1);
}

#[test]
fn trimming_removes_unicode_white_space_at_both_ends() {
    assert_eq!(fossil::utils::trim_text("  a b\t\n"), "a b");
    assert_eq!(fossil::utils::trim_text("\u{3000}\u{a0}tag\u{2029}"), "tag");
    assert_eq!(fossil::utils::trim_text(" \t "), "");
    assert_eq!(fossil::utils::trim_text("x"), "x");
    assert_eq!(fossil::utils::trim_text("\u{200b}x"), "\u{200b}x");
}
