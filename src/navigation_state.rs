use vstd::prelude::*;

use crate::keys::Action;

verus! {

/// The item attribute that the list is ordered by.
#[derive(Clone, Copy, Debug, PartialEq, Eq, Structural)]
pub enum SortField {
    Modified,
    Size,
    Name,
}

/// The direction of the ordering.
#[derive(Clone, Copy, Debug, PartialEq, Eq, Structural)]
pub enum SortDir {
    Asc,
    Desc,
}

/// Rows the cursor keeps between itself and the top edge of the viewport.
pub const WINDOW_BUFFER: u16 = 2;

/// Terminal rows that are not list rows: one header line and one footer line,
/// plus one because the viewport bounds are inclusive.
pub const RESERVED_ROWS: u16 = 3;

/// The abstract navigation state: plain numbers, inclusive viewport bounds.
pub struct NavigationView {
    pub list_size: nat,
    pub selected: nat,
    pub start: nat,
    pub end: nat,
    pub buffer: nat,
    pub sort_field: SortField,
    pub sort_dir: SortDir,
}

impl NavigationView {
    /// Number of rows that the viewport spans, minus one.
    pub open spec fn span(self) -> nat {
        (self.end - self.start) as nat
    }

    /// The selection lies inside the viewport.
    pub open spec fn selection_visible(self) -> bool {
        self.start <= self.selected <= self.end
    }

    /// The viewport is consistent and holds the selection.
    pub open spec fn window_inv(self) -> bool {
        &&& self.start <= self.end
        &&& self.end <= u16::MAX
        &&& self.span() + RESERVED_ROWS <= u16::MAX
        &&& self.list_size <= u16::MAX
        &&& self.buffer <= self.span()
        &&& self.selection_visible()
    }

    /// The invariant every reachable state keeps: a consistent viewport and,
    /// for a non-empty list, a selection inside the list.
    pub open spec fn inv(self) -> bool {
        &&& self.window_inv()
        &&& self.list_size > 0 ==> self.selected < self.list_size
    }

    /// Moving the selection down by `by` rows: the index saturates at
    /// `usize::MAX`; a target past the end of the list leaves everything as
    /// it was; otherwise, when the target lies below the viewport, the
    /// viewport slides down just far enough to end at it.
    pub open spec fn incremented(self, by: nat) -> NavigationView {
        let target = if self.selected + by <= usize::MAX {
            self.selected + by
        } else {
            usize::MAX as nat
        };
        if target < self.list_size {
            if self.end < target {
                NavigationView {
                    selected: target as nat,
                    start: (target - self.span()) as nat,
                    end: target as nat,
                    ..self
                }
            } else {
                NavigationView { selected: target as nat, ..self }
            }
        } else {
            self
        }
    }

    /// Moving the selection up by `by` rows: the index saturates at zero;
    /// when the target comes closer than `buffer` rows to the top edge, the
    /// viewport slides up until that margin is restored or it starts at row 0.
    pub open spec fn decremented(self, by: nat) -> NavigationView {
        let target: nat = if self.selected >= by {
            (self.selected - by) as nat
        } else {
            0
        };
        if self.start + self.buffer > target {
            let new_start: nat = if target >= self.buffer {
                (target - self.buffer) as nat
            } else {
                0
            };
            NavigationView {
                selected: target,
                start: new_start,
                end: new_start + self.span(),
                ..self
            }
        } else {
            NavigationView { selected: target, ..self }
        }
    }

    /// Moving the selection to `index` through the increment or decrement path.
    pub open spec fn selected_at(self, index: nat) -> NavigationView {
        if index > self.selected {
            self.incremented((index - self.selected) as nat)
        } else {
            self.decremented((self.selected - index) as nat)
        }
    }

    /// The state after a movement action.
    pub open spec fn navigated(self, action: Action) -> NavigationView {
        match action {
            Action::NavDown => self.incremented(1),
            Action::NavUp => self.decremented(1),
            Action::JumpToTop => self.selected_at(0),
            Action::JumpToBottom => if self.list_size > 0 {
                self.selected_at((self.list_size - 1) as nat)
            } else {
                self
            },
            _ => self,
        }
    }

    /// The index that the selection is clamped to when the list has `size` items.
    pub open spec fn clamped_index(self, size: nat) -> nat {
        if size == 0 {
            0
        } else if self.selected >= size {
            (size - 1) as nat
        } else {
            self.selected
        }
    }

    /// Recording a new list size, then clamping the selection into the list.
    pub open spec fn resized(self, size: nat) -> NavigationView {
        let v = NavigationView { list_size: size, ..self };
        if self.clamped_index(size) == self.selected {
            v
        } else {
            v.selected_at(self.clamped_index(size))
        }
    }

    /// The sort rule: a new field starts descending; the same field again
    /// flips the direction.
    pub open spec fn sorted_by(self, field: SortField) -> NavigationView {
        let dir = if self.sort_field == field {
            match self.sort_dir {
                SortDir::Desc => SortDir::Asc,
                SortDir::Asc => SortDir::Desc,
            }
        } else {
            SortDir::Desc
        };
        NavigationView { sort_field: field, sort_dir: dir, ..self }
    }
}

/// Selection, sort order and visible window of the list browser.
pub struct NavigationState {
    list_size: u16,
    pub sort_field: SortField,
    selected_index: usize,
    sort_dir: SortDir,
    visible_window: (u16, u16),
    window_buffer: u16,
}

impl View for NavigationState {
    type V = NavigationView;

    closed spec fn view(&self) -> NavigationView {
        NavigationView {
            list_size: self.list_size as nat,
            selected: self.selected_index as nat,
            start: self.visible_window.0 as nat,
            end: self.visible_window.1 as nat,
            buffer: self.window_buffer as nat,
            sort_field: self.sort_field,
            sort_dir: self.sort_dir,
        }
    }
}

impl NavigationState {
    /// The state is well formed.
    pub open spec fn wf(&self) -> bool {
        self@.inv()
    }

    /// A state for a terminal of `terminal_height` rows: one header row and
    /// one footer row, the rest list rows. The list starts empty, sorted by
    /// modification time, newest first, with the viewport at the top or, for
    /// a selection beyond the first page, ending at the selection. The margin
    /// is narrowed on terminals too short to hold it.
    pub fn new(selected_index: usize, terminal_height: u16) -> (r: Self)
        requires
            terminal_height >= RESERVED_ROWS,
            selected_index <= u16::MAX,
        ensures
            r.wf(),
            r@.selected == selected_index,
            r@.list_size == 0,
            r@.span() == terminal_height - RESERVED_ROWS,
            r@.start == if selected_index > terminal_height - RESERVED_ROWS {
                selected_index - (terminal_height - RESERVED_ROWS)
            } else {
                0
            },
            r@.buffer == if terminal_height - RESERVED_ROWS < WINDOW_BUFFER {
                terminal_height - RESERVED_ROWS
            } else {
                WINDOW_BUFFER as int
            },
            r@.sort_field == SortField::Modified,
            r@.sort_dir == SortDir::Desc,
    {
        let last_row = terminal_height - RESERVED_ROWS;
        let window_buffer = if last_row < WINDOW_BUFFER {
            last_row
        } else {
            WINDOW_BUFFER
        };
        let selected = selected_index as u16;
        let window_start = if selected > last_row {
            selected - last_row
        } else {
            0
        };
        NavigationState {
            selected_index,
            sort_field: SortField::Modified,
            sort_dir: SortDir::Desc,
            visible_window: (window_start, window_start + last_row),
            list_size: 0,
            window_buffer,
        }
    }

    pub fn get_list_size(&self) -> (r: u16)
        ensures
            r == self@.list_size,
    {
        self.list_size
    }

    pub fn get_visible_window(&self) -> (r: (u16, u16))
        ensures
            r.0 == self@.start,
            r.1 == self@.end,
    {
        self.visible_window
    }

    pub fn get_window_size(&self) -> (r: u16)
        requires
            self.wf(),
        ensures
            r == self@.span(),
    {
        self.visible_window.1 - self.visible_window.0
    }

    pub fn get_sort_dir(&self) -> (r: &SortDir)
        ensures
            *r == self@.sort_dir,
    {
        &self.sort_dir
    }

    pub fn get_sort_field(&self) -> (r: &SortField)
        ensures
            *r == self@.sort_field,
    {
        &self.sort_field
    }

    pub fn get_window_buffer(&self) -> (r: u16)
        ensures
            r == self@.buffer,
    {
        self.window_buffer
    }

    pub fn get_selected_index(&self) -> (r: usize)
        ensures
            r == self@.selected,
    {
        self.selected_index
    }

    /// Moves the selection down by `increment` rows (see
    /// `NavigationView::incremented`). The list size and the viewport's size
    /// stay as they are, and the selection stays inside the viewport.
    pub fn increment_selected_index(&mut self, increment: usize)
        requires
            old(self)@.window_inv(),
        ensures
            final(self)@.window_inv(),
            old(self).wf() ==> final(self).wf(),
            final(self)@ == old(self)@.incremented(increment as nat),
            final(self)@.list_size == old(self)@.list_size,
            final(self)@.span() == old(self)@.span(),
            final(self)@.start <= final(self)@.selected <= final(self)@.end,
    {
        let new_index = self.selected_index.saturating_add(increment);
        if new_index < self.list_size as usize {
            let target = new_index as u16;
            let start = self.visible_window.0;
            let range = self.visible_window.1 - self.visible_window.0;
            let mut window_start = start;
            while window_start + range < target
                invariant
                    start <= window_start,
                    window_start == start || window_start + range <= target,
                    start + range == self.visible_window.1,
                    target < u16::MAX,
                decreases target - window_start,
            {
                window_start = window_start + 1;
            }
            self.visible_window = (window_start, window_start + range);
            self.selected_index = new_index;
        }
    }

    /// Moves the selection up by `decrement` rows (see
    /// `NavigationView::decremented`). The list size and the viewport's size
    /// stay as they are, and the selection stays inside the viewport.
    pub fn decrement_selected_index(&mut self, decrement: usize)
        requires
            old(self)@.window_inv(),
        ensures
            final(self)@.window_inv(),
            old(self).wf() ==> final(self).wf(),
            final(self)@ == old(self)@.decremented(decrement as nat),
            final(self)@.list_size == old(self)@.list_size,
            final(self)@.span() == old(self)@.span(),
            final(self)@.start <= final(self)@.selected <= final(self)@.end,
    {
        let new_index = self.selected_index.saturating_sub(decrement);
        let target = new_index as u16;
        let buffer = self.window_buffer;
        if self.visible_window.0 as u32 + buffer as u32 > target as u32 {
            let start = self.visible_window.0;
            let range = self.visible_window.1 - self.visible_window.0;
            let mut window_start = start;
            while window_start > 0 && window_start as u32 + buffer as u32 > target as u32
                invariant
                    window_start <= start,
                    window_start < start ==> window_start + buffer >= target,
                    start + range == self.visible_window.1,
                decreases window_start,
            {
                window_start = window_start - 1;
            }
            self.visible_window = (window_start, window_start + range);
        }
        self.selected_index = new_index;
    }

    /// Recording a new list size also clamps the selection into the list
    /// (to the last item, or to 0 for an empty list), sliding the viewport
    /// the same way a move would.
    pub fn set_list_size(&mut self, list_size: u16)
        requires
            old(self).wf(),
        ensures
            final(self).wf(),
            final(self)@ == old(self)@.resized(list_size as nat),
            final(self)@.list_size == list_size,
            final(self)@.selected == old(self)@.clamped_index(list_size as nat),
    {
        self.list_size = list_size;
        let clamped = if list_size == 0 {
            0
        } else if self.selected_index >= list_size as usize {
            list_size as usize - 1
        } else {
            self.selected_index
        };
        if clamped != self.selected_index {
            self.set_selected_index(clamped);
        }
    }

    /// Moves the selection to `new_index` through the same path as the
    /// single-step moves, so the viewport follows it.
    pub fn set_selected_index(&mut self, new_index: usize)
        requires
            old(self)@.window_inv(),
        ensures
            final(self)@.window_inv(),
            old(self).wf() ==> final(self).wf(),
            final(self)@ == old(self)@.selected_at(new_index as nat),
    {
        if new_index > self.selected_index {
            self.increment_selected_index(new_index - self.selected_index);
        } else {
            self.decrement_selected_index(self.selected_index - new_index);
        }
    }

    /// Applies a movement action: one row down or up, or a jump to the first
    /// or the last item (a jump to the last item of an empty list does
    /// nothing). Other actions leave the state as it is.
    pub fn navigate(&mut self, action: Action)
        requires
            old(self).wf(),
        ensures
            final(self).wf(),
            final(self)@ == old(self)@.navigated(action),
    {
        match action {
            Action::NavDown => self.increment_selected_index(1),
            Action::NavUp => self.decrement_selected_index(1),
            Action::JumpToTop => self.set_selected_index(0),
            Action::JumpToBottom => {
                if self.list_size > 0 {
                    self.set_selected_index(self.list_size as usize - 1);
                }
            },
            _ => {},
        }
    }

    /// Records the sort intent: a new field sorts descending first, the
    /// current field flips direction.
    pub fn sort(&mut self, sort_field: SortField)
        ensures
            final(self)@ == old(self)@.sorted_by(sort_field),
    {
        let mut sort_dir = SortDir::Desc;
        if self.sort_field == sort_field {
            if self.sort_dir == SortDir::Desc {
                sort_dir = SortDir::Asc;
            } else {
                sort_dir = SortDir::Desc;
            }
        }
        self.sort_dir = sort_dir;
        self.sort_field = sort_field;
    }
}

/// One move of the selection: down or up by a number of rows.
pub enum Move {
    Down(nat),
    Up(nat),
}

/// The state after `moves`, applied in order.
pub open spec fn after_moves(state: NavigationView, moves: Seq<Move>) -> NavigationView
    decreases moves.len(),
{
    if moves.len() == 0 {
        state
    } else {
        let before = after_moves(state, moves.drop_last());
        match moves.last() {
            Move::Down(n) => before.incremented(n),
            Move::Up(n) => before.decremented(n),
        }
    }
}

/// One move keeps the viewport consistent, its size, the list size, and the
/// selection inside the viewport.
pub proof fn lemma_move_keeps_window(state: NavigationView, m: Move)
    requires
        state.window_inv(),
    ensures
        ({
            let next = match m {
                Move::Down(n) => state.incremented(n),
                Move::Up(n) => state.decremented(n),
            };
            &&& next.window_inv()
            &&& next.start <= next.selected <= next.end
            &&& next.list_size == state.list_size
            &&& next.span() == state.span()
        }),
{
}

/// Whatever sequence of increments and decrements is applied to a state
/// with a consistent viewport, after every one of them the list size and the
/// viewport's size are unchanged and the selection lies inside the viewport.
pub proof fn lemma_selection_stays_visible(state: NavigationView, moves: Seq<Move>)
    requires
        state.window_inv(),
    ensures
        forall|k: int|
            0 <= k <= moves.len() ==> {
                let s = #[trigger] after_moves(state, moves.take(k));
                &&& s.window_inv()
                &&& s.start <= s.selected <= s.end
                &&& s.list_size == state.list_size
                &&& s.span() == state.span()
            },
    decreases moves.len(),
{
    if moves.len() > 0 {
        let shorter = moves.drop_last();
        lemma_selection_stays_visible(state, shorter);
        assert forall|k: int| 0 <= k <= moves.len() implies {
            let s = #[trigger] after_moves(state, moves.take(k));
            &&& s.window_inv()
            &&& s.start <= s.selected <= s.end
            &&& s.list_size == state.list_size
            &&& s.span() == state.span()
        } by {
            if k < moves.len() {
                assert(moves.take(k) =~= shorter.take(k));
            } else {
                assert(moves.take(k) =~= moves);
                assert(moves.drop_last() =~= shorter.take(shorter.len() as int));
                let before = after_moves(state, shorter.take(shorter.len() as int));
                lemma_move_keeps_window(before, moves.last());
            }
        }
    } else {
        assert(moves.take(0) =~= moves);
    }
}

/// Sorting on a field other than the current one starts descending, and
/// each further sort on the same field flips the direction: three sorts in a
/// row on a new field give descending, ascending, descending. Sorting never
/// moves the selection or the viewport.
pub proof fn lemma_sort_toggles(state: NavigationView, field: SortField)
    ensures
        state.sorted_by(field).sort_field == field,
        state.sort_field != field ==> state.sorted_by(field).sort_dir == SortDir::Desc,
        state.sort_field != field ==> state.sorted_by(field).sorted_by(field).sort_dir
            == SortDir::Asc,
        state.sorted_by(field).sorted_by(field).sort_dir != state.sorted_by(field).sort_dir,
        state.sorted_by(field).sorted_by(field).sorted_by(field).sort_dir == state.sorted_by(
            field,
        ).sort_dir,
        state.sorted_by(field).selected == state.selected,
        state.sorted_by(field).start == state.start,
        state.sorted_by(field).end == state.end,
{
}

} // verus!
