use explorer::browser::{Entry, Explorer};
use explorer::editor::{EditorAction, InputWindow};
use explorer::keys::Key;

fn two_files() -> Vec<Entry> {
    vec![
        Entry {
            name: "old.txt".to_string(),
            path: vec!["tmp".to_string(), "old.txt".to_string()],
            is_directory: false,
        },
        Entry {
            name: "keep.txt".to_string(),
            path: vec!["tmp".to_string(), "keep.txt".to_string()],
            is_directory: false,
        },
    ]
}

#[test]
fn rename_paths_resolves_old_and_new() {
    let mut ex = Explorer::new(vec!["tmp".to_string()]);
    ex.load_listing(vec!["tmp".to_string()], two_files(), 10);
    let (old_path, new_path) = ex.rename_paths(&"new.txt".to_string()).unwrap();
    assert_eq!(old_path, vec!["tmp".to_string(), "old.txt".to_string()]);
    assert_eq!(new_path, vec!["tmp".to_string(), "new.txt".to_string()]);
}

#[test]
fn rename_round_trip_updates_name_and_final_segment() {
    let mut ex = Explorer::new(vec!["tmp".to_string()]);
    ex.load_listing(vec!["tmp".to_string()], two_files(), 10);
    let (row, scroll) = (ex.cursor_row, ex.scroll_offset);

    // the modal editor, pre-filled with the current name, edits it to "new.txt"
    let mut w = InputWindow::new(80, 24);
    w.set_content(ex.get_curr_filename().unwrap());
    for _ in 0..7 {
        assert_eq!(w.handle_key(Key::Backspace), EditorAction::Continue);
    }
    for c in "new.txt".chars() {
        assert_eq!(w.handle_key(Key::Char(c)), EditorAction::Continue);
    }
    assert_eq!(w.handle_key(Key::Char('\n')), EditorAction::Commit);

    ex.apply_rename(w.content.clone());
    assert_eq!(ex.entries[0].name, "new.txt");
    assert_eq!(
        ex.entries[0].path,
        vec!["tmp".to_string(), "new.txt".to_string()]
    );
    assert!(!ex.entries[0].is_directory);
    // the neighbour, the directory shown, and the viewport are untouched
    assert_eq!(ex.entries[1].name, "keep.txt");
    assert_eq!(ex.current_directory, vec!["tmp".to_string()]);
    assert_eq!((row, scroll), (ex.cursor_row, ex.scroll_offset));
}

#[test]
fn cancel_leaves_the_entry_untouched() {
    let mut ex = Explorer::new(vec!["tmp".to_string()]);
    ex.load_listing(vec!["tmp".to_string()], two_files(), 10);

    let mut w = InputWindow::new(80, 24);
    w.set_content(ex.get_curr_filename().unwrap());
    assert_eq!(w.handle_key(Key::Char('x')), EditorAction::Continue);
    assert_eq!(w.handle_key(Key::Ctrl('c')), EditorAction::Cancel);
    // on cancel the browser performs no rename at all
    assert_eq!(ex.entries[0].name, "old.txt");
    assert_eq!(
        ex.entries[0].path,
        vec!["tmp".to_string(), "old.txt".to_string()]
    );
}

#[test]
fn renaming_a_directory_keeps_its_kind() {
    let mut ex = Explorer::new(Vec::new());
    let children = vec![Entry {
        name: "docs".to_string(),
        path: vec!["docs".to_string()],
        is_directory: true,
    }];
    ex.load_listing(Vec::new(), children, 10);
    ex.apply_rename("papers".to_string());
    assert_eq!(ex.entries[0].name, "papers");
    assert_eq!(ex.entries[0].path, vec!["papers".to_string()]);
    assert!(ex.entries[0].is_directory);
}
