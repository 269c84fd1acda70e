use microtun_telnet::file_picker::{FilePicker, PickerAction};
use microtun_telnet::keymap::{KeyCode, KeyEvent, KeyModifiers};
use microtun_telnet::listing::{
    directory_entries, directory_error, DirectoryChild, DirectoryFailure, FilePickerEntry,
};
use std::path::PathBuf;

const NONE: KeyModifiers = KeyModifiers { control: false, alt: false };
const CONTROL: KeyModifiers = KeyModifiers { control: true, alt: false };

fn child(name: &str, is_dir: bool) -> DirectoryChild<PathBuf> {
    DirectoryChild { file_name: name.to_owned(), path: PathBuf::from(name), is_dir }
}

fn names(entries: &[FilePickerEntry<PathBuf>]) -> Vec<&str> {
    entries.iter().map(|entry| entry.name.as_str()).collect()
}

fn press(
    picker: &mut FilePicker<PathBuf>,
    code: KeyCode,
    modifiers: KeyModifiers,
) -> PickerAction<PathBuf> {
    let parent = picker.cwd.parent().map(|path| path.to_path_buf());
    picker.handle_key(KeyEvent::new(code, modifiers), parent)
}

fn picker(count: usize) -> FilePicker<PathBuf> {
    let mut children = Vec::new();
    for index in 0..count {
        children.push(child(&format!("{index:03}"), false));
    }
    FilePicker::open(PathBuf::from("/data/in"), None, children)
}

#[test]
fn lists_parent_and_directories_before_files() {
    let nested = FilePicker::open(PathBuf::from("root/child"), Some(PathBuf::from("root")), vec![]);
    assert_eq!(nested.entries[0].name, "../");

    let root_picker = FilePicker::open(
        PathBuf::from("root"),
        Some(PathBuf::from("")),
        vec![child("z.bin", false), child("child", true), child("a.bin", false)],
    );
    assert_eq!(names(&root_picker.entries), vec!["../", "child/", "a.bin", "z.bin"]);
}

#[test]
fn navigation_clamps_selection() {
    let mut picker = FilePicker {
        cwd: PathBuf::from("."),
        entries: vec![
            FilePickerEntry { name: "a".to_owned(), path: PathBuf::from("a"), is_dir: false },
            FilePickerEntry { name: "b".to_owned(), path: PathBuf::from("b"), is_dir: false },
        ],
        selected: 0,
    };
    picker.move_selection(-1);
    assert_eq!(picker.selected, 0);
    picker.move_selection(99);
    assert_eq!(picker.selected, 1);
}

#[test]
fn names_are_ordered_without_regard_to_case() {
    let entries = directory_entries(
        None,
        vec![
            child("beta", false),
            child("Alpha", false),
            child("alpha", false),
            child("\u{c9}t\u{e9}", false),
            child("\u{e9}tage", false),
            child("Zoo", true),
            child("apple", true),
        ],
    );
    assert_eq!(
        names(&entries),
        vec!["apple/", "Zoo/", "Alpha", "alpha", "beta", "\u{e9}tage", "\u{c9}t\u{e9}"]
    );
}

#[test]
fn equal_names_keep_the_order_they_were_found_in() {
    let mut first = child("same", false);
    first.path = PathBuf::from("first");
    let mut second = child("same", false);
    second.path = PathBuf::from("second");
    let mut third = child("same", false);
    third.path = PathBuf::from("third");
    let children = vec![child("z", false), first, second, child("a", false), third];
    let entries = directory_entries(None, children);
    let paths: Vec<PathBuf> = entries.into_iter().map(|entry| entry.path).collect();
    assert_eq!(
        paths,
        vec![
            PathBuf::from("a"),
            PathBuf::from("first"),
            PathBuf::from("second"),
            PathBuf::from("third"),
            PathBuf::from("z"),
        ]
    );
}

#[test]
fn long_listings_are_sorted() {
    let mut children = Vec::new();
    let mut value: u64 = 7;
    for _ in 0..500 {
        value = (value * 1103515245 + 12345) % 2147483648;
        children.push(child(&format!("{value:010}"), value % 3 == 0));
    }
    let mut expected: Vec<(bool, String)> = children
        .iter()
        .map(|child| {
            let slash = if child.is_dir { "/" } else { "" };
            (!child.is_dir, format!("{}{slash}", child.file_name))
        })
        .collect();
    expected.sort();
    let entries = directory_entries(None, children);
    let found: Vec<(bool, String)> =
        entries.into_iter().map(|entry| (!entry.is_dir, entry.name)).collect();
    assert_eq!(found, expected);
}

#[test]
fn directory_failures_have_their_texts() {
    let (path, error) = ("/data".to_owned(), "denied".to_owned());
    let table = [
        (DirectoryFailure::Current(error.clone()), "read current directory: denied"),
        (
            DirectoryFailure::Open { path: path.clone(), error: error.clone() },
            "open directory /data: denied",
        ),
        (DirectoryFailure::Read { path, error }, "read directory /data: denied"),
    ];
    for (failure, text) in table {
        assert_eq!(directory_error(failure), text);
    }
}

#[test]
fn keys_move_the_cursor() {
    let mut picker = picker(25);
    let table: [(KeyCode, usize); 11] = [
        (KeyCode::Down, 1),
        (KeyCode::Char('j'), 2),
        (KeyCode::Up, 1),
        (KeyCode::Char('k'), 0),
        (KeyCode::Up, 0),
        (KeyCode::PageDown, 10),
        (KeyCode::PageDown, 20),
        (KeyCode::PageDown, 24),
        (KeyCode::PageUp, 14),
        (KeyCode::End, 24),
        (KeyCode::Home, 0),
    ];
    for (code, selected) in table {
        assert!(matches!(press(&mut picker, code, NONE), PickerAction::Nothing));
        assert_eq!(picker.selected, selected);
    }
    picker.selected = 3;
    picker.move_selection(isize::MIN);
    assert_eq!(picker.selected, 0);
    picker.move_selection(isize::MAX);
    assert_eq!(picker.selected, 24);
}

#[test]
fn an_empty_list_keeps_the_cursor_at_zero() {
    let mut picker = picker(0);
    for code in [KeyCode::Down, KeyCode::End, KeyCode::PageUp, KeyCode::Enter] {
        assert!(matches!(press(&mut picker, code, NONE), PickerAction::Nothing));
        assert_eq!(picker.selected, 0);
    }
    assert!(picker.visible_rows(5).is_empty());
}

#[test]
fn escape_and_control_c_cancel() {
    let mut picker = picker(3);
    assert!(matches!(press(&mut picker, KeyCode::Esc, NONE), PickerAction::Cancel));
    assert!(matches!(press(&mut picker, KeyCode::Char('c'), CONTROL), PickerAction::Cancel));
    assert!(matches!(press(&mut picker, KeyCode::Char('c'), NONE), PickerAction::Nothing));
    assert!(matches!(press(&mut picker, KeyCode::Char('q'), NONE), PickerAction::Nothing));
}

#[test]
fn entering_a_directory_reads_it_and_a_file_is_sent() {
    let mut picker = FilePicker::open(
        PathBuf::from("/data"),
        Some(PathBuf::from("/")),
        vec![child("sub", true), child("file.bin", false)],
    );
    picker.selected = 2;
    match press(&mut picker, KeyCode::Enter, NONE) {
        PickerAction::Upload(path) => assert_eq!(path, PathBuf::from("file.bin")),
        _ => panic!("a file is sent"),
    }
    picker.selected = 1;
    assert!(matches!(press(&mut picker, KeyCode::Right, NONE), PickerAction::Read));
    assert_eq!(picker.cwd, PathBuf::from("sub"));
    assert_eq!(picker.selected, 0);
    assert_eq!(names(&picker.entries), vec!["../", "sub/", "file.bin"]);
    assert!(matches!(press(&mut picker, KeyCode::Enter, NONE), PickerAction::Read));
    assert_eq!(picker.cwd, PathBuf::from("/"));
}

#[test]
fn the_parent_is_read_where_there_is_one() {
    let mut picker = picker(3);
    picker.selected = 2;
    assert!(matches!(press(&mut picker, KeyCode::Backspace, NONE), PickerAction::Read));
    assert_eq!(picker.cwd, PathBuf::from("/data"));
    assert_eq!(picker.selected, 0);
    assert!(matches!(press(&mut picker, KeyCode::Left, NONE), PickerAction::Read));
    assert_eq!(picker.cwd, PathBuf::from("/"));
    assert!(matches!(press(&mut picker, KeyCode::Left, NONE), PickerAction::Nothing));
    assert_eq!(picker.cwd, PathBuf::from("/"));
}

#[test]
fn choosing_the_parent_entry_is_going_to_the_parent() {
    for outcome in [Ok(()), Err("gone".to_owned())] {
        let mut results = Vec::new();
        for code in [KeyCode::Enter, KeyCode::Right, KeyCode::Backspace, KeyCode::Left] {
            let cwd = PathBuf::from("/data/in");
            let parent = Some(PathBuf::from("/data"));
            let mut picker = FilePicker::open(cwd, parent, vec![child("file", false)]);
            assert!(matches!(press(&mut picker, code, NONE), PickerAction::Read));
            let read = outcome.clone().map(|_| vec![child("z", false), child("in", true)]);
            let result = picker.reload(Some(PathBuf::from("/")), read);
            let shown: Vec<String> =
                picker.entries.iter().map(|entry| entry.name.clone()).collect();
            results.push((result, picker.cwd.clone(), shown, picker.selected));
        }
        assert_eq!(results[0].1, PathBuf::from("/data"));
        assert!(results.iter().all(|result| *result == results[0]));
    }
}

#[test]
fn refreshing_keeps_the_cursor_on_the_list() {
    let mut picker = picker(10);
    picker.selected = 8;
    assert!(matches!(press(&mut picker, KeyCode::Char('r'), CONTROL), PickerAction::Read));
    assert_eq!(picker.selected, 8);
    assert_eq!(picker.reload(None, Err("gone".to_owned())), Err("gone".to_owned()));
    assert_eq!(picker.entries.len(), 10);
    assert_eq!(picker.reload(None, Ok(vec![child("b", false), child("a", false)])), Ok(()));
    assert_eq!(names(&picker.entries), vec!["a", "b"]);
    assert_eq!(picker.selected, 1);
}

#[test]
fn the_window_follows_the_cursor() {
    let mut picker = picker(5);
    picker.selected = 3;
    let rows = picker.visible_rows(2);
    assert_eq!(rows.len(), 2);
    assert_eq!(rows[0].text, "  002");
    assert!(!rows[0].selected);
    assert_eq!(rows[1].text, "> 003");
    assert!(rows[1].selected);
    assert_eq!(picker.visible_rows(10).len(), 5);
    assert_eq!(picker.visible_rows(0).len(), 0);
}
