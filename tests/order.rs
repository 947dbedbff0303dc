use std::cmp::Ordering;

use terminal_notes::navigation_state::{SortDir, SortField};
use terminal_notes::note_entry::NoteEntry;
use terminal_notes::order::{compare_bytes, compare_notes, sort_notes};

fn note(name: &str, modified: i64, size: u64) -> NoteEntry {
    NoteEntry {
        path: format!("/n/{}", name),
        name: name.to_string(),
        modified,
        modified_text: String::new(),
        is_default: false,
        size,
    }
}

fn names(entries: &[NoteEntry]) -> Vec<&str> {
    entries.iter().map(|e| e.name.as_str()).collect()
}

#[test]
fn bytes_compare_lexicographically() {
    assert_eq!(compare_bytes(b"abc", b"abd"), Ordering::Less);
    assert_eq!(compare_bytes(b"abd", b"abc"), Ordering::Greater);
    assert_eq!(compare_bytes(b"ab", b"abc"), Ordering::Less);
    assert_eq!(compare_bytes(b"abc", b"ab"), Ordering::Greater);
    assert_eq!(compare_bytes(b"", b""), Ordering::Equal);
    assert_eq!(compare_bytes(b"same", b"same"), Ordering::Equal);
    assert_eq!(compare_bytes(b"B", b"a"), Ordering::Less);
}

#[test]
fn notes_compare_by_field_and_direction() {
    let a = note("a", 10, 300);
    let b = note("b", 20, 100);
    assert_eq!(compare_notes(&a, &b, SortField::Name, SortDir::Asc), Ordering::Less);
    assert_eq!(compare_notes(&a, &b, SortField::Name, SortDir::Desc), Ordering::Greater);
    assert_eq!(compare_notes(&a, &b, SortField::Modified, SortDir::Asc), Ordering::Less);
    assert_eq!(compare_notes(&a, &b, SortField::Size, SortDir::Asc), Ordering::Greater);
    assert_eq!(compare_notes(&a, &a, SortField::Size, SortDir::Desc), Ordering::Equal);
}

#[test]
fn sort_by_each_field() {
    let mut entries = vec![note("b", 30, 5), note("c", 10, 50), note("a", 20, 500)];
    sort_notes(&mut entries, SortField::Name, SortDir::Asc);
    assert_eq!(names(&entries), ["a", "b", "c"]);
    sort_notes(&mut entries, SortField::Name, SortDir::Desc);
    assert_eq!(names(&entries), ["c", "b", "a"]);
    sort_notes(&mut entries, SortField::Modified, SortDir::Desc);
    assert_eq!(names(&entries), ["b", "a", "c"]);
    sort_notes(&mut entries, SortField::Modified, SortDir::Asc);
    assert_eq!(names(&entries), ["c", "a", "b"]);
    sort_notes(&mut entries, SortField::Size, SortDir::Asc);
    assert_eq!(names(&entries), ["b", "c", "a"]);
    sort_notes(&mut entries, SortField::Size, SortDir::Desc);
    assert_eq!(names(&entries), ["a", "c", "b"]);
}

#[test]
fn sort_keeps_equal_notes_in_order() {
    let mut entries = vec![note("x", 1, 7), note("y", 2, 3), note("z", 3, 7), note("w", 4, 3)];
    sort_notes(&mut entries, SortField::Size, SortDir::Desc);
    assert_eq!(names(&entries), ["x", "z", "y", "w"]);
    sort_notes(&mut entries, SortField::Size, SortDir::Asc);
    assert_eq!(names(&entries), ["y", "w", "x", "z"]);
}

#[test]
fn sort_empty_and_single() {
    let mut empty: Vec<NoteEntry> = vec![];
    sort_notes(&mut empty, SortField::Name, SortDir::Asc);
    assert!(empty.is_empty());
    let mut one = vec![note("only", 0, 0)];
    sort_notes(&mut one, SortField::Modified, SortDir::Desc);
    assert_eq!(names(&one), ["only"]);
}
