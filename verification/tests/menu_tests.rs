use hatoba::config::{Directory, Language};
use hatoba::error::{not_found_error, CommandError};
use hatoba::menu::{initial_selection, menu_height, next_step, row_text, Key, MenuStep};
use hatoba::messages::get;
use hatoba::prompt::{
    check_registered, check_selectable, check_swappable, default_index, held_items, language_at,
    language_index, menu_item, menu_items, report_line, select_prompt, sole_choice, swap_choice,
    swap_report_line,
};

fn make_dirs(paths: &[&str]) -> Vec<Directory> {
    paths
        .iter()
        .map(|p| Directory {
            path: p.to_string(),
            label: None,
            default: false,
        })
        .collect()
}

#[test]
fn run_returns_single_dir_without_interaction() {
    let dirs = make_dirs(&["/tmp/only"]);
    assert_eq!(sole_choice(&dirs), Some("/tmp/only".to_string()));
}

#[test]
fn several_dirs_need_a_menu() {
    assert_eq!(sole_choice(&make_dirs(&["/a", "/b"])), None);
    assert_eq!(sole_choice(&make_dirs(&[])), None);
}

#[test]
fn cursor_wraps_at_both_ends() {
    assert_eq!(next_step(Key::Up, 0, 3), MenuStep::Moved(2));
    assert_eq!(next_step(Key::Down, 2, 3), MenuStep::Moved(0));
    assert_eq!(next_step(Key::Up, 2, 3), MenuStep::Moved(1));
    assert_eq!(next_step(Key::Down, 0, 3), MenuStep::Moved(1));
}

#[test]
fn up_then_down_comes_back() {
    for sel in 0..4 {
        let up = match next_step(Key::Up, sel, 4) {
            MenuStep::Moved(k) => k,
            other => panic!("unexpected {:?}", other),
        };
        assert_eq!(next_step(Key::Down, up, 4), MenuStep::Moved(sel));
    }
}

#[test]
fn down_once_per_row_cycles() {
    let mut sel = 1;
    for _ in 0..5 {
        sel = match next_step(Key::Down, sel, 5) {
            MenuStep::Moved(k) => k,
            other => panic!("unexpected {:?}", other),
        };
    }
    assert_eq!(sel, 1);
}

#[test]
fn enter_chooses_and_escape_cancels() {
    assert_eq!(next_step(Key::Enter, 1, 2), MenuStep::Chosen(1));
    assert_eq!(next_step(Key::Escape, 1, 2), MenuStep::Cancelled);
    assert_eq!(next_step(Key::Interrupt, 0, 2), MenuStep::Cancelled);
    assert_eq!(next_step(Key::Other, 0, 2), MenuStep::Ignored);
}

#[test]
fn initial_selection_is_the_default_path() {
    let dirs = make_dirs(&["/a", "/b", "/c"]);
    assert_eq!(initial_selection(&dirs, Some("/c")), 2);
    assert_eq!(initial_selection(&dirs, Some("/x")), 0);
    assert_eq!(initial_selection(&dirs, None), 0);
}

#[test]
fn row_text_marks_selection_and_default() {
    let mut dirs = make_dirs(&["/a"]);
    dirs[0].label = Some("alpha".to_string());
    assert_eq!(row_text(&dirs[0], true, Some("/a")), "▶ alpha  (default)\r\n");
    assert_eq!(row_text(&dirs[0], false, None), "  alpha\r\n");
}

#[test]
fn menu_height_counts_header_lines() {
    assert_eq!(menu_height(0), 3);
    assert_eq!(menu_height(4), 7);
}

#[test]
fn menu_items_mark_the_default() {
    let mut dirs = make_dirs(&["/a", "/b"]);
    dirs[1].default = true;
    dirs[1].label = Some("bee".to_string());
    let msg = get(&Language::En);
    assert_eq!(menu_items(&dirs, msg.default_marker), vec!["/a".to_string(), "bee  (default)".to_string()]);
    assert_eq!(menu_item(&dirs[1], "*"), "bee*");
    assert_eq!(default_index(&dirs), 1);
    assert_eq!(default_index(&make_dirs(&["/a", "/b"])), 0);
}

#[test]
fn held_item_blinks() {
    let items = vec!["a".to_string(), "b".to_string()];
    assert_eq!(held_items(&items, 1), vec!["a".to_string(), "\x1b[5mb\x1b[25m".to_string()]);
}

#[test]
fn prompt_shows_current_directory() {
    assert_eq!(select_prompt("pick", "/home/u"), "pick → /home/u)");
}

#[test]
fn menus_need_enough_directories() {
    assert!(matches!(check_registered(0), Err(CommandError::NoneRegistered)));
    assert!(check_registered(1).is_ok());
    assert!(matches!(check_swappable(0), Err(CommandError::NoneRegistered)));
    assert!(matches!(check_swappable(1), Err(CommandError::TooFewToSwap)));
    assert!(check_swappable(2).is_ok());
    assert!(matches!(check_selectable(0), Err(CommandError::NoneConfigured)));
    assert!(check_selectable(3).is_ok());
}

#[test]
fn swap_choice_refuses_the_same_row() {
    let dirs = make_dirs(&["/a", "/b"]);
    assert_eq!(swap_choice(&dirs, 0, 1).unwrap(), ("/a".to_string(), "/b".to_string()));
    assert!(matches!(swap_choice(&dirs, 1, 1), Err(CommandError::SelfSwap)));
}

#[test]
fn language_rows_round_trip() {
    assert_eq!(language_index(&Language::En), 0);
    assert_eq!(language_index(&Language::Ja), 1);
    assert_eq!(language_at(language_index(&Language::Ja)), Language::Ja);
    assert_eq!(language_at(0), Language::En);
}

#[test]
fn messages_follow_the_language() {
    assert_eq!(get(&Language::En).added, "Added");
    assert_eq!(get(&Language::En).default_marker, "  (default)");
    assert_eq!(get(&Language::Ja).removed, "削除しました");
    assert_eq!(get(&Language::Ja).default_marker, "  (デフォルト)");
}

#[test]
fn every_refusal_has_its_message() {
    let cases = vec![
        (CommandError::AlreadyExists { path: "/a".to_string() }, "already exists: /a"),
        (CommandError::NotFound { path: "/a".to_string(), hint: None }, "not found: /a"),
        (
            CommandError::NotFound { path: "/a/".to_string(), hint: Some("/a".to_string()) },
            "not found: /a/\nhint: did you mean '/a'?",
        ),
        (CommandError::PathNotUnique, "UNIQUE constraint failed: dirs.path"),
        (CommandError::SelfSwap, "cannot swap a directory with itself"),
        (CommandError::NoneRegistered, "no directories registered. Use 'hatoba add <path>' to add one."),
        (CommandError::TooFewToSwap, "need at least 2 directories to swap"),
        (CommandError::NoneConfigured, "no directories configured in config.toml"),
        (CommandError::Cancelled, "cancelled"),
    ];
    for (e, text) in cases {
        assert_eq!(e.message(), text);
    }
}

#[test]
fn not_found_error_hints_only_when_other_spelling_registered() {
    let paths = vec!["/x".to_string(), "/y/".to_string()];
    assert_eq!(not_found_error(&paths, "/y").message(), "not found: /y\nhint: did you mean '/y/'?");
    assert_eq!(not_found_error(&paths, "/x/").message(), "not found: /x/\nhint: did you mean '/x'?");
    assert_eq!(not_found_error(&paths, "/z").message(), "not found: /z");
}

#[test]
fn report_lines() {
    assert_eq!(report_line("Added", "/tmp/a"), "Added: /tmp/a");
    assert_eq!(swap_report_line("Swapped", "/a", "/b"), "Swapped: /a ↔ /b");
}
