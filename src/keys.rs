use vstd::prelude::*;

use crate::navigation_state::SortField;

verus! {

/// Longest gap, in milliseconds, between the two keys of a chord.
pub const CHORD_TIMEOUT_MS: u64 = 300;

/// A key press, as far as the browser tells keys apart: a character, or any
/// other key.
#[derive(Clone, Copy, Debug, PartialEq, Eq, Structural)]
pub enum Key {
    Char(char),
    Other,
}

/// What the browser does in response to a key event.
#[derive(Clone, Copy, Debug, PartialEq, Eq, Structural)]
pub enum Action {
    Quit,
    Noop,
    OpenEditor,
    Rename,
    Delete,
    New,
    NavDown,
    NavUp,
    JumpToTop,
    JumpToBottom,
    Sort,
}

/// The fixed table of single-key bindings.
pub open spec fn key_action(key: Key) -> Action {
    match key {
        Key::Char('j') => Action::NavDown,
        Key::Char('k') => Action::NavUp,
        Key::Char('G') => Action::JumpToBottom,
        Key::Char('q') => Action::Quit,
        Key::Char('s') => Action::Sort,
        Key::Char('r') => Action::Rename,
        Key::Char('n') => Action::New,
        Key::Char('\n') => Action::OpenEditor,
        _ => Action::Noop,
    }
}

/// The two-key chords: `gg` jumps to the top, `dd` deletes.
pub open spec fn chord_action(first: Key, second: Key) -> Option<Action> {
    if first == Key::Char('g') && second == Key::Char('g') {
        Some(Action::JumpToTop)
    } else if first == Key::Char('d') && second == Key::Char('d') {
        Some(Action::Delete)
    } else {
        None
    }
}

/// A pending key seen at `last` has expired at `now`. A clock that went
/// backwards counts as no time passed.
pub open spec fn expired(last: u64, now: u64) -> bool {
    now > last && now - last > CHORD_TIMEOUT_MS
}

/// The abstract dispatcher: the key waiting for a possible second chord key,
/// and the time of the last key event.
pub struct DispatcherView {
    pub pending: Option<Key>,
    pub last_key_time: u64,
}

impl DispatcherView {
    /// The pending key that the next event may complete a chord with.
    pub open spec fn live_pending(self, now: u64) -> Option<Key> {
        if expired(self.last_key_time, now) {
            None
        } else {
            self.pending
        }
    }

    /// The chord, if any, that `key` arriving at `now` completes.
    pub open spec fn completed_chord(self, key: Key, now: u64) -> Option<Action> {
        match self.live_pending(now) {
            Some(first) => chord_action(first, key),
            None => None,
        }
    }

    /// The action that `key` arriving at `now` yields: the completed chord,
    /// or else the key's own binding.
    pub open spec fn action_for(self, key: Key, now: u64) -> Action {
        match self.completed_chord(key, now) {
            Some(action) => action,
            None => key_action(key),
        }
    }

    /// The dispatcher after `key` arrives at `now`: a completed chord leaves
    /// nothing pending; any other key becomes the only pending key.
    pub open spec fn after(self, key: Key, now: u64) -> DispatcherView {
        DispatcherView {
            pending: if self.completed_chord(key, now) is Some {
                None
            } else {
                Some(key)
            },
            last_key_time: now,
        }
    }
}

/// Turns raw key events into actions, recognising two-key chords.
pub struct KeyDispatcher {
    pending: Option<Key>,
    last_key_time: u64,
}

impl View for KeyDispatcher {
    type V = DispatcherView;

    closed spec fn view(&self) -> DispatcherView {
        DispatcherView { pending: self.pending, last_key_time: self.last_key_time }
    }
}

/// The binding of a single key.
pub fn action_for_key(key: Key) -> (r: Action)
    ensures
        r == key_action(key),
{
    match key {
        Key::Char('j') => Action::NavDown,
        Key::Char('k') => Action::NavUp,
        Key::Char('G') => Action::JumpToBottom,
        Key::Char('q') => Action::Quit,
        Key::Char('s') => Action::Sort,
        Key::Char('r') => Action::Rename,
        Key::Char('n') => Action::New,
        Key::Char('\n') => Action::OpenEditor,
        _ => Action::Noop,
    }
}

impl KeyDispatcher {
    /// A dispatcher with no pending key; `now` is the current time in
    /// milliseconds.
    pub fn new(now: u64) -> (r: Self)
        ensures
            r@.pending is None,
            r@.last_key_time == now,
    {
        KeyDispatcher { pending: None, last_key_time: now }
    }

    /// Handles one key event at time `now` (milliseconds, from the same
    /// clock as every other call): a pending key older than the chord
    /// timeout is dropped first; a key that completes a chord with the
    /// pending key yields the chord's action and clears the buffer; any
    /// other key becomes the pending key and yields its own binding.
    pub fn handle_key(&mut self, key: Key, now: u64) -> (r: Action)
        ensures
            r == old(self)@.action_for(key, now),
            final(self)@ == old(self)@.after(key, now),
    {
        if now > self.last_key_time && now - self.last_key_time > CHORD_TIMEOUT_MS {
            self.pending = None;
        }
        self.last_key_time = now;
        if let Some(first) = self.pending {
            if first == Key::Char('g') && key == Key::Char('g') {
                self.pending = None;
                return Action::JumpToTop;
            } else if first == Key::Char('d') && key == Key::Char('d') {
                self.pending = None;
                return Action::Delete;
            }
        }
        self.pending = Some(key);
        action_for_key(key)
    }
}

/// In sort mode, the key that picks each column: `s` size, `n` name,
/// `m` modification time; any other key picks nothing.
pub fn sort_field_for_key(key: Key) -> (r: Option<SortField>)
    ensures
        r == match key {
            Key::Char('s') => Some(SortField::Size),
            Key::Char('n') => Some(SortField::Name),
            Key::Char('m') => Some(SortField::Modified),
            _ => None::<SortField>,
        },
{
    match key {
        Key::Char('s') => Some(SortField::Size),
        Key::Char('n') => Some(SortField::Name),
        Key::Char('m') => Some(SortField::Modified),
        _ => None,
    }
}

/// The answer that a key gives to a yes/no question: `y` or `Y` yes, `n` or
/// `N` no; any other key answers nothing.
pub fn yes_no_answer(key: Key) -> (r: Option<bool>)
    ensures
        r == match key {
            Key::Char('y') | Key::Char('Y') => Some(true),
            Key::Char('n') | Key::Char('N') => Some(false),
            _ => None::<bool>,
        },
{
    match key {
        Key::Char('y') | Key::Char('Y') => Some(true),
        Key::Char('n') | Key::Char('N') => Some(false),
        _ => None,
    }
}

/// Two `d` keys within the chord timeout yield one `Delete`, on the second
/// key, and leave nothing pending; the same keys further apart yield two
/// single-key actions, and the second `d` waits as the start of a new chord.
pub proof fn lemma_delete_chord_timing(d: DispatcherView, first: u64, second: u64)
    requires
        d.pending != Some(Key::Char('d')),
        first <= second,
    ensures
        ({
            let d1 = d.after(Key::Char('d'), first);
            &&& d.action_for(Key::Char('d'), first) == Action::Noop
            &&& d1.pending == Some(Key::Char('d'))
            &&& second - first <= CHORD_TIMEOUT_MS ==> {
                &&& d1.action_for(Key::Char('d'), second) == Action::Delete
                &&& d1.after(Key::Char('d'), second).pending is None
            }
            &&& second - first > CHORD_TIMEOUT_MS ==> {
                &&& d1.action_for(Key::Char('d'), second) == Action::Noop
                &&& d1.after(Key::Char('d'), second).pending == Some(Key::Char('d'))
            }
        }),
{
}

} // verus!
