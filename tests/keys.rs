use terminal_notes::keys::{
    action_for_key, sort_field_for_key, yes_no_answer, Action, Key, KeyDispatcher,
};
use terminal_notes::navigation_state::SortField;

#[test]
fn single_key_bindings() {
    let table = [
        ('j', Action::NavDown),
        ('k', Action::NavUp),
        ('G', Action::JumpToBottom),
        ('q', Action::Quit),
        ('s', Action::Sort),
        ('r', Action::Rename),
        ('n', Action::New),
        ('\n', Action::OpenEditor),
        ('x', Action::Noop),
        ('d', Action::Noop),
        ('g', Action::Noop),
    ];
    for (c, action) in table {
        assert_eq!(action_for_key(Key::Char(c)), action);
    }
    assert_eq!(action_for_key(Key::Other), Action::Noop);
}

#[test]
fn dd_within_timeout_deletes_once() {
    let mut dispatcher = KeyDispatcher::new(0);
    assert_eq!(dispatcher.handle_key(Key::Char('d'), 1000), Action::Noop);
    assert_eq!(dispatcher.handle_key(Key::Char('d'), 1200), Action::Delete);
    // the buffer was cleared: a third d starts a new chord
    assert_eq!(dispatcher.handle_key(Key::Char('d'), 1300), Action::Noop);
    assert_eq!(dispatcher.handle_key(Key::Char('d'), 1400), Action::Delete);
}

#[test]
fn dd_at_exactly_the_timeout_still_deletes() {
    let mut dispatcher = KeyDispatcher::new(0);
    assert_eq!(dispatcher.handle_key(Key::Char('d'), 1000), Action::Noop);
    assert_eq!(dispatcher.handle_key(Key::Char('d'), 1300), Action::Delete);
}

#[test]
fn dd_beyond_timeout_is_two_single_keys() {
    let mut dispatcher = KeyDispatcher::new(0);
    assert_eq!(dispatcher.handle_key(Key::Char('d'), 1000), Action::Noop);
    assert_eq!(dispatcher.handle_key(Key::Char('d'), 1301), Action::Noop);
    // the second d is the start of a new chord
    assert_eq!(dispatcher.handle_key(Key::Char('d'), 1400), Action::Delete);
}

#[test]
fn gg_jumps_to_top() {
    let mut dispatcher = KeyDispatcher::new(0);
    assert_eq!(dispatcher.handle_key(Key::Char('g'), 10), Action::Noop);
    assert_eq!(dispatcher.handle_key(Key::Char('g'), 20), Action::JumpToTop);
}

#[test]
fn mixed_keys_do_not_form_chords() {
    let mut dispatcher = KeyDispatcher::new(0);
    assert_eq!(dispatcher.handle_key(Key::Char('g'), 10), Action::Noop);
    assert_eq!(dispatcher.handle_key(Key::Char('d'), 20), Action::Noop);
    assert_eq!(dispatcher.handle_key(Key::Char('g'), 30), Action::Noop);
    assert_eq!(dispatcher.handle_key(Key::Char('j'), 40), Action::NavDown);
    assert_eq!(dispatcher.handle_key(Key::Char('d'), 50), Action::Noop);
    assert_eq!(dispatcher.handle_key(Key::Other, 60), Action::Noop);
    assert_eq!(dispatcher.handle_key(Key::Char('d'), 70), Action::Noop);
    assert_eq!(dispatcher.handle_key(Key::Char('d'), 80), Action::Delete);
}

#[test]
fn chord_key_after_other_key_starts_new_chord() {
    let mut dispatcher = KeyDispatcher::new(0);
    assert_eq!(dispatcher.handle_key(Key::Char('j'), 10), Action::NavDown);
    assert_eq!(dispatcher.handle_key(Key::Char('g'), 20), Action::Noop);
    assert_eq!(dispatcher.handle_key(Key::Char('g'), 30), Action::JumpToTop);
}

#[test]
fn clock_going_backwards_counts_as_no_time() {
    let mut dispatcher = KeyDispatcher::new(0);
    assert_eq!(dispatcher.handle_key(Key::Char('d'), 5000), Action::Noop);
    assert_eq!(dispatcher.handle_key(Key::Char('d'), 4000), Action::Delete);
}

#[test]
fn sort_mode_keys() {
    assert_eq!(sort_field_for_key(Key::Char('s')), Some(SortField::Size));
    assert_eq!(sort_field_for_key(Key::Char('n')), Some(SortField::Name));
    assert_eq!(sort_field_for_key(Key::Char('m')), Some(SortField::Modified));
    assert_eq!(sort_field_for_key(Key::Char('x')), None);
    assert_eq!(sort_field_for_key(Key::Other), None);
}

#[test]
fn yes_no_keys() {
    assert_eq!(yes_no_answer(Key::Char('y')), Some(true));
    assert_eq!(yes_no_answer(Key::Char('Y')), Some(true));
    assert_eq!(yes_no_answer(Key::Char('n')), Some(false));
    assert_eq!(yes_no_answer(Key::Char('N')), Some(false));
    assert_eq!(yes_no_answer(Key::Char('q')), None);
    assert_eq!(yes_no_answer(Key::Other), None);
}
