use explorer::browser::{BrowserAction, Entry, Explorer};
use explorer::keys::Key;

fn entry(name: &str, is_directory: bool) -> Entry {
    Entry {
        name: name.to_string(),
        path: vec!["tmp".to_string(), name.to_string()],
        is_directory,
    }
}

fn listing(specs: &[(&str, bool)]) -> Vec<Entry> {
    specs.iter().map(|(n, d)| entry(n, *d)).collect()
}

fn numbered(n: usize) -> Vec<Entry> {
    (0..n).map(|i| entry(&format!("f{i}"), false)).collect()
}

#[test]
fn dirs_sort_before_files_stable() {
    let mut ex = Explorer::new(vec!["tmp".to_string()]);
    let children = listing(&[
        ("file_b", false),
        ("dir_a", true),
        ("file_a", false),
        ("dir_b", true),
    ]);
    ex.load_listing(vec!["tmp".to_string()], children, 10);
    let names: Vec<&str> = ex.entries.iter().map(|e| e.name.as_str()).collect();
    assert_eq!(names, vec!["dir_a", "dir_b", "file_b", "file_a"]);
}

#[test]
fn cursor_walk_n50_h10() {
    let mut ex = Explorer::new(Vec::new());
    ex.load_listing(Vec::new(), numbered(50), 10);
    assert_eq!(ex.visible_count, 10);
    for _ in 0..9 {
        ex.move_cursor_down();
    }
    assert_eq!(ex.cursor_row, 10);
    assert_eq!(ex.scroll_offset, 0);
    ex.move_cursor_down();
    assert_eq!(ex.cursor_row, 10);
    assert_eq!(ex.scroll_offset, 1);
    for _ in 0..40 {
        ex.move_cursor_down();
    }
    assert_eq!(ex.scroll_offset, 40);
    assert_eq!(ex.cursor_row, 10);
    // the selected absolute index is the last entry; nothing moves further
    assert_eq!(ex.scroll_offset + ex.cursor_row - 1, 49);
    ex.move_cursor_down();
    assert_eq!(ex.scroll_offset, 40);
    assert_eq!(ex.cursor_row, 10);
}

#[test]
fn up_at_top_is_noop() {
    let mut ex = Explorer::new(Vec::new());
    ex.load_listing(Vec::new(), numbered(5), 10);
    ex.move_cursor_up();
    assert_eq!(ex.cursor_row, 1);
    assert_eq!(ex.scroll_offset, 0);
}

#[test]
fn down_at_end_of_short_list_is_noop() {
    let mut ex = Explorer::new(Vec::new());
    ex.load_listing(Vec::new(), numbered(3), 10);
    assert_eq!(ex.visible_count, 3);
    for _ in 0..5 {
        ex.move_cursor_down();
    }
    assert_eq!(ex.cursor_row, 3);
    assert_eq!(ex.scroll_offset, 0);
}

#[test]
fn cursor_index_stays_in_bounds_through_moves() {
    let n = 7;
    let h = 3;
    let mut ex = Explorer::new(Vec::new());
    ex.load_listing(Vec::new(), numbered(n), h);
    let moves = [
        true, true, true, true, true, true, true, true, false, false, true, false, true, true,
        false, false, false, false, false, false, true,
    ];
    for down in moves {
        if down {
            ex.move_cursor_down();
        } else {
            ex.move_cursor_up();
        }
        let abs = ex.scroll_offset + ex.cursor_row - 1;
        assert!(abs < n, "absolute index {abs} left the listing of {n}");
    }
}

#[test]
fn empty_listing_never_panics() {
    let mut ex = Explorer::new(Vec::new());
    ex.load_listing(Vec::new(), Vec::new(), 10);
    assert_eq!(ex.visible_count, 0);
    ex.move_cursor_down();
    ex.move_cursor_up();
    ex.jump_to_bottom();
    ex.jump_to_top(10);
    assert_eq!(ex.cursor_row, 1);
    assert_eq!(ex.scroll_offset, 0);
    assert!(ex.get_curr_file().is_none());
    assert!(ex.get_curr_filename().is_none());
    assert!(ex.enter_selected().is_none());
    assert!(ex.rename_paths(&"x".to_string()).is_none());
}

#[test]
fn enter_on_file_is_noop() {
    let mut ex = Explorer::new(vec!["tmp".to_string()]);
    ex.load_listing(
        vec!["tmp".to_string()],
        listing(&[("notes", false), ("docs", true)]),
        10,
    );
    // directories sort first: move down once to select the file
    ex.move_cursor_down();
    assert_eq!(ex.get_curr_filename().unwrap(), "notes");
    let before_names: Vec<String> = ex.entries.iter().map(|e| e.name.clone()).collect();
    let (row, scroll) = (ex.cursor_row, ex.scroll_offset);
    assert!(ex.enter_selected().is_none());
    let after_names: Vec<String> = ex.entries.iter().map(|e| e.name.clone()).collect();
    assert_eq!(ex.current_directory, vec!["tmp".to_string()]);
    assert_eq!(before_names, after_names);
    assert_eq!((row, scroll), (ex.cursor_row, ex.scroll_offset));
}

#[test]
fn enter_on_directory_returns_its_path() {
    let mut ex = Explorer::new(vec!["tmp".to_string()]);
    ex.load_listing(
        vec!["tmp".to_string()],
        listing(&[("notes", false), ("docs", true)]),
        10,
    );
    let p = ex.enter_selected().unwrap();
    assert_eq!(p, vec!["tmp".to_string(), "docs".to_string()]);
}

#[test]
fn parent_at_root_is_none() {
    let ex = Explorer::new(Vec::new());
    assert!(ex.parent_directory().is_none());
}

#[test]
fn parent_drops_last_segment() {
    let ex = Explorer::new(vec!["home".to_string(), "user".to_string()]);
    assert_eq!(ex.parent_directory().unwrap(), vec!["home".to_string()]);
}

#[test]
fn backspace_at_root_is_noop() {
    let mut ex = Explorer::new(Vec::new());
    ex.load_listing(Vec::new(), numbered(2), 10);
    ex.move_cursor_down();
    let (row, scroll) = (ex.cursor_row, ex.scroll_offset);
    let action = ex.handle_key(Key::Backspace, 10);
    assert_eq!(action, BrowserAction::Stay);
    assert_eq!(ex.entries.len(), 2);
    assert_eq!((row, scroll), (ex.cursor_row, ex.scroll_offset));
}

#[test]
fn jump_to_bottom_stays_in_viewport() {
    let mut ex = Explorer::new(Vec::new());
    ex.load_listing(Vec::new(), numbered(50), 10);
    ex.jump_to_bottom();
    assert_eq!(ex.cursor_row, 10);
    assert_eq!(ex.scroll_offset, 0);
}

#[test]
fn jump_to_top_resets_window() {
    let mut ex = Explorer::new(Vec::new());
    ex.load_listing(Vec::new(), numbered(50), 10);
    for _ in 0..25 {
        ex.move_cursor_down();
    }
    ex.jump_to_top(10);
    assert_eq!(ex.cursor_row, 1);
    assert_eq!(ex.scroll_offset, 0);
    assert_eq!(ex.visible_count, 10);
}

#[test]
fn recompute_visible_clamps_cursor() {
    let mut ex = Explorer::new(Vec::new());
    ex.load_listing(Vec::new(), numbered(20), 10);
    for _ in 0..9 {
        ex.move_cursor_down();
    }
    assert_eq!(ex.cursor_row, 10);
    // the terminal shrank: only 4 rows remain for entries
    ex.recompute_visible(4);
    assert_eq!(ex.visible_count, 4);
    assert_eq!(ex.cursor_row, 4);
}

#[test]
fn handle_key_dispatch() {
    let mut ex = Explorer::new(Vec::new());
    ex.load_listing(Vec::new(), numbered(5), 10);
    assert_eq!(ex.handle_key(Key::Char('q'), 10), BrowserAction::Quit);
    assert_eq!(ex.handle_key(Key::Char('j'), 10), BrowserAction::Stay);
    assert_eq!(ex.cursor_row, 2);
    assert_eq!(ex.handle_key(Key::Char('k'), 10), BrowserAction::Stay);
    assert_eq!(ex.cursor_row, 1);
    assert_eq!(ex.handle_key(Key::Char('d'), 10), BrowserAction::Stay);
    assert_eq!(ex.cursor_row, 5);
    assert_eq!(ex.handle_key(Key::Char('g'), 10), BrowserAction::Stay);
    assert_eq!(ex.cursor_row, 1);
    assert_eq!(ex.handle_key(Key::Char('z'), 10), BrowserAction::Stay);
    assert_eq!(ex.handle_key(Key::Other, 10), BrowserAction::Stay);
    match ex.handle_key(Key::Char('r'), 10) {
        BrowserAction::BeginRename(name) => assert_eq!(name, "f0"),
        other => panic!("expected a rename to begin, got {other:?}"),
    }
}

#[test]
fn handle_key_enter_descends() {
    let mut ex = Explorer::new(vec!["tmp".to_string()]);
    ex.load_listing(
        vec!["tmp".to_string()],
        listing(&[("docs", true), ("notes", false)]),
        10,
    );
    match ex.handle_key(Key::Char('\n'), 10) {
        BrowserAction::LoadDirectory(p) => {
            assert_eq!(p, vec!["tmp".to_string(), "docs".to_string()])
        }
        other => panic!("expected a directory to load, got {other:?}"),
    }
}
