use terminal_notes::config::{expand_homedir, Config};
use terminal_notes::naming::{check_note_name, next_name_step, note_path, NameCheck, NameStep};
use terminal_notes::navigation_state::{NavigationState, SortField};
use terminal_notes::note_entry::{DeleteCheck, NoteEntry};
use terminal_notes::render::{Column, Columnar, Field};

fn column(field: Field) -> Column {
    Column { field, name: "label".to_string(), sort_field: SortField::Name }
}

#[test]
fn note_entry_keeps_its_fields() {
    let e = NoteEntry::new("/n/a.txt".to_string(), "a.txt".to_string(), 1_700_000_000_000_000_000, false, 42);
    assert_eq!(e.path, "/n/a.txt");
    assert_eq!(e.name, "a.txt");
    assert_eq!(e.modified, 1_700_000_000_000_000_000);
    assert!(!e.is_default);
    assert_eq!(*e.get_size(), 42);
    assert!(!e.modified_text.is_empty());
}

#[test]
fn note_entry_column_values() {
    let e = NoteEntry::new("/n/b.md".to_string(), "b.md".to_string(), 0, false, 1234567);
    assert_eq!(e.get_value(&column(Field::Name)), "b.md");
    assert_eq!(e.get_value(&column(Field::Size)), "1234567");
    assert_eq!(e.get_value(&column(Field::Modified)), e.modified_text);
    let zero = NoteEntry::new("/n/z".to_string(), "z".to_string(), 0, false, 0);
    assert_eq!(zero.get_value(&column(Field::Size)), "0");
    let max = NoteEntry::new("/n/m".to_string(), "m".to_string(), 0, false, u64::MAX);
    assert_eq!(max.get_value(&column(Field::Size)), "18446744073709551615");
}

#[test]
fn default_note_is_marked_and_protected() {
    let e = NoteEntry::new("/n/default_notes.txt".to_string(), "default_notes.txt".to_string(), 0, true, 7);
    assert_eq!(e.get_value(&column(Field::Name)), "default_notes.txt  [Default]");
    assert_eq!(e.delete_check(), DeleteCheck::Protected);
}

#[test]
fn delete_checks() {
    let plain = NoteEntry::new("/n/a".to_string(), "a".to_string(), 0, false, 0);
    assert_eq!(plain.delete_check(), DeleteCheck::Confirm);
    let no_path = NoteEntry::new(String::new(), "a".to_string(), 0, false, 0);
    assert_eq!(no_path.delete_check(), DeleteCheck::EmptyPath);
}

#[test]
fn modified_text_follows_the_timestamp() {
    let a = NoteEntry::new("/n/a".to_string(), "a".to_string(), 0, false, 0);
    let b = NoteEntry::new("/n/b".to_string(), "b".to_string(), 86_400_000_000_000 * 45, false, 0);
    assert_eq!(a.modified_text.len(), 12);
    assert_ne!(a.modified_text, b.modified_text);
}

#[test]
fn home_expansion() {
    assert_eq!(expand_homedir("~/.notes/".to_string(), "/home/u"), "/home/u/.notes/");
    assert_eq!(expand_homedir("/abs/~x".to_string(), "/home/u"), "/abs/~x");
    assert_eq!(expand_homedir("~".to_string(), "/h"), "/h");
    assert_eq!(expand_homedir(String::new(), "/h"), "");
    assert_eq!(expand_homedir("~~".to_string(), "/h"), "/h~");
}

#[test]
fn config_defaults() {
    let config = Config::new(None, None, None, "/home/u");
    assert_eq!(config.get_notes_directory(), "/home/u/.notes/");
    assert_eq!(config.get_default_notes_file(), "default_notes.txt");
    assert_eq!(config.get_default_file_extension(), "txt");
    assert_eq!(config.get_default_notes_path(), "/home/u/.notes/default_notes.txt");
}

#[test]
fn config_settings_override_defaults() {
    let config = Config::new(
        Some("~/notes/".to_string()),
        Some("inbox.md".to_string()),
        Some("md".to_string()),
        "/root",
    );
    assert_eq!(config.get_notes_directory(), "/root/notes/");
    assert_eq!(config.get_default_notes_file(), "inbox.md");
    assert_eq!(config.get_default_file_extension(), "md");
    assert_eq!(config.get_default_notes_path(), "/root/notes/inbox.md");
}

#[test]
fn note_path_adds_default_extension() {
    assert_eq!(note_path("/n/", "todo", "txt"), "/n/todo.txt");
    assert_eq!(note_path("/n/", "todo.md", "txt"), "/n/todo.md");
    assert_eq!(note_path("/n/", ".hidden", "txt"), "/n/.hidden.txt");
    assert_eq!(note_path("/n/", "a.b.c", "txt"), "/n/a.b.c");
}

#[test]
fn name_checks() {
    assert_eq!(check_note_name("", false), NameCheck::Empty);
    assert_eq!(check_note_name("", true), NameCheck::Empty);
    assert_eq!(check_note_name("x", true), NameCheck::Taken);
    assert_eq!(check_note_name("x", false), NameCheck::Available);
}

#[test]
fn rename_to_existing_name_changes_nothing() {
    let notes = vec![
        NoteEntry::new("/n/a.txt".to_string(), "a.txt".to_string(), 0, false, 1),
        NoteEntry::new("/n/b.txt".to_string(), "b.txt".to_string(), 0, false, 2),
    ];
    let mut state = NavigationState::new(0, 7);
    state.set_list_size(notes.len() as u16);
    state.set_selected_index(1);
    let target = note_path("/n/", "a", "txt");
    let exists = notes.iter().any(|n| n.path == target);
    assert!(exists);
    // only an available name leads to the provider's rename
    assert_eq!(check_note_name("a", exists), NameCheck::Taken);
    assert_eq!(state.get_selected_index(), 1);
    assert_eq!(notes.len(), 2);
    assert_eq!(notes[0].path, "/n/a.txt");
    assert_eq!(notes[1].path, "/n/b.txt");
}

#[test]
fn only_available_names_are_applied() {
    assert_eq!(next_name_step(NameCheck::Available), NameStep::Apply);
    assert_eq!(next_name_step(NameCheck::Taken), NameStep::AskAgain);
    assert_eq!(next_name_step(NameCheck::Empty), NameStep::AskAgain);
    assert_eq!(next_name_step(check_note_name("", false)), NameStep::AskAgain);
    assert_eq!(next_name_step(check_note_name("a", true)), NameStep::AskAgain);
    assert_eq!(next_name_step(check_note_name("a", false)), NameStep::Apply);
}

#[test]
fn default_note_is_recognised_by_name() {
    let config = Config::new(None, Some("inbox.md".to_string()), None, "/h");
    assert!(config.is_default_note(&"inbox.md".to_string()));
    assert!(!config.is_default_note(&"inbox.md.bak".to_string()));
    assert!(!config.is_default_note(&"old_inbox.md".to_string()));
}

#[test]
fn modified_text_is_twelve_ascii_characters() {
    for nanos in [0i64, -86_400_000_000_000, 1_700_000_000_000_000_000, i64::MAX, i64::MIN] {
        let e = NoteEntry::new("/n/a".to_string(), "a".to_string(), nanos, false, 0);
        assert_eq!(e.modified_text.chars().count(), 12);
        assert!(e.modified_text.is_ascii());
    }
}
