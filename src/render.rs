use vstd::prelude::*;

use crate::navigation_state::{NavigationState, NavigationView, SortDir, SortField};
use crate::terminal::{
    black_fg, black_fg_seq, clear_all, clear_all_seq, goto, goto_seq, reset_bg, reset_bg_seq,
    reset_fg, reset_fg_seq, white_bg, white_bg_seq, yellow_fg, yellow_fg_seq,
};
use crate::text::{byte_len, byte_length, joined, lemma_joined_prefix, pad_right, push_padded};

verus! {

/// Spaces added to the widest entry of a column.
pub const COLUMN_PADDING: usize = 4;

/// The item attribute that a column shows.
#[derive(Clone, Copy, Debug, PartialEq, Eq, Structural)]
pub enum Field {
    Size,
    Name,
    Modified,
}

/// A table column: the attribute it shows, its label, and the sort key that
/// the header marks when it is active.
pub struct Column {
    pub field: Field,
    pub name: String,
    pub sort_field: SortField,
}

impl Column {
    pub fn get_field(&self) -> (r: &Field)
        ensures
            *r == self.field,
    {
        &self.field
    }

    pub fn get_name(&self) -> (r: &String)
        ensures
            r@ == self.name@,
    {
        &self.name
    }

    pub fn get_sort_field(&self) -> (r: &SortField)
        ensures
            *r == self.sort_field,
    {
        &self.sort_field
    }
}

/// A row of the table: it yields the text shown in each column.
pub trait Columnar {
    /// The text of this row in `column`.
    spec fn column_value(&self, column: &Column) -> Seq<char>;

    fn get_value(&self, column: &Column) -> (r: String)
        ensures
            r@ == self.column_value(column),
    ;
}

/// The text of every row in `column`, in row order.
pub open spec fn column_values<T: Columnar>(rows: Seq<T>, column: Column) -> Seq<Seq<char>> {
    Seq::new(rows.len(), |i: int| rows[i].column_value(&column))
}

/// The largest byte length among `values`, 0 when there are none.
pub open spec fn widest(values: Seq<Seq<char>>) -> nat
    decreases values.len(),
{
    if values.len() == 0 {
        0
    } else {
        let rest = widest(values.drop_last());
        let last = byte_len(values.last());
        if rest >= last {
            rest
        } else {
            last
        }
    }
}

/// The width of `column` over all of `rows`: the longer of its label and its
/// longest value, in bytes, plus the padding.
pub open spec fn column_width<T: Columnar>(rows: Seq<T>, column: Column) -> nat {
    let label = byte_len(column.name@);
    let values = widest(column_values(rows, column));
    ((if label >= values {
        label
    } else {
        values
    }) + COLUMN_PADDING) as nat
}

/// `widest` is the largest byte length among the values: no value is
/// longer, and some value is that long (0 for no values).
pub proof fn lemma_widest_is_max(values: Seq<Seq<char>>)
    ensures
        forall|i: int| 0 <= i < values.len() ==> byte_len(#[trigger] values[i]) <= widest(values),
        values.len() == 0 ==> widest(values) == 0,
        values.len() > 0 ==> exists|i: int|
            0 <= i < values.len() && widest(values) == byte_len(#[trigger] values[i]),
    decreases values.len(),
{
    if values.len() > 0 {
        let rest = values.drop_last();
        lemma_widest_is_max(rest);
        assert forall|i: int| 0 <= i < values.len() implies byte_len(#[trigger] values[i])
            <= widest(values) by {
            if i < rest.len() {
                assert(values[i] == rest[i]);
            }
        }
        if rest.len() > 0 && widest(rest) >= byte_len(values.last()) {
            let i = choose|i: int|
                0 <= i < rest.len() && widest(rest) == byte_len(#[trigger] rest[i]);
            assert(values[i] == rest[i]);
        } else {
            assert(widest(values) == byte_len(values[values.len() - 1]));
        }
    }
}

/// A column's width is four more than the longer of its label and the
/// longest of its values, in bytes, whatever the rows hold.
pub proof fn lemma_column_width_is_padded_max<T: Columnar>(rows: Seq<T>, column: Column)
    ensures
        column_width(rows, column) >= byte_len(column.name@) + COLUMN_PADDING,
        forall|i: int|
            0 <= i < rows.len() ==> column_width(rows, column) >= byte_len(
                #[trigger] rows[i].column_value(&column),
            ) + COLUMN_PADDING,
        column_width(rows, column) == byte_len(column.name@) + COLUMN_PADDING || exists|i: int|
            0 <= i < rows.len() && column_width(rows, column) == byte_len(
                #[trigger] rows[i].column_value(&column),
            ) + COLUMN_PADDING,
{
    let values = column_values(rows, column);
    lemma_widest_is_max(values);
    assert forall|i: int| 0 <= i < rows.len() implies column_width(rows, column) >= byte_len(
        #[trigger] rows[i].column_value(&column),
    ) + COLUMN_PADDING by {
        assert(values[i] == rows[i].column_value(&column));
    }
    if values.len() > 0 && widest(values) > byte_len(column.name@) {
        let i = choose|i: int|
            0 <= i < values.len() && widest(values) == byte_len(#[trigger] values[i]);
        assert(values[i] == rows[i].column_value(&column));
    }
}

/// Every column's width fits in a `usize`.
pub open spec fn widths_fit<T: Columnar>(rows: Seq<T>, columns: Seq<Column>) -> bool {
    forall|j: int|
        0 <= j < columns.len() ==> column_width(rows, #[trigger] columns[j]) <= usize::MAX
}

/// The arrow shown after the label of the active sort column.
pub open spec fn sort_glyph(dir: SortDir) -> char {
    match dir {
        SortDir::Desc => '\u{2193}',
        SortDir::Asc => '\u{2191}',
    }
}

/// A column's header text: its label, followed by the direction arrow when
/// it is bound to the active sort field.
pub open spec fn header_label(column: Column, state: NavigationView) -> Seq<char> {
    if column.sort_field == state.sort_field {
        column.name@ + seq![' ', sort_glyph(state.sort_dir)]
    } else {
        column.name@
    }
}

/// The header line: screen clear, cursor home, then each column's header text
/// padded to the column's width, in yellow.
pub open spec fn header_text<T: Columnar>(
    rows: Seq<T>,
    columns: Seq<Column>,
    state: NavigationView,
) -> Seq<char> {
    let cells = Seq::new(
        columns.len(),
        |j: int| pad_right(header_label(columns[j], state), column_width(rows, columns[j])),
    );
    clear_all_seq() + goto_seq(1, 1) + yellow_fg_seq() + joined(cells) + reset_fg_seq() + seq![
        '\n',
    ]
}

/// The cells of row `i`, each padded to its column's width.
pub open spec fn row_cells<T: Columnar>(rows: Seq<T>, columns: Seq<Column>, i: int) -> Seq<
    Seq<char>,
> {
    Seq::new(
        columns.len(),
        |j: int| pad_right(rows[i].column_value(&columns[j]), column_width(rows, columns[j])),
    )
}

/// The line of row `i`, placed at the start of terminal row 2 plus its rank
/// in the viewport; the selected row is drawn black on white.
pub open spec fn row_text<T: Columnar>(
    rows: Seq<T>,
    columns: Seq<Column>,
    state: NavigationView,
    i: int,
) -> Seq<char> {
    let highlight = if i == state.selected {
        white_bg_seq() + black_fg_seq()
    } else {
        Seq::empty()
    };
    goto_seq(1, (2 + i - state.start) as nat) + highlight + joined(row_cells(rows, columns, i))
        + seq!['\r', '\n']
        + reset_bg_seq() + reset_fg_seq()
}

/// What each row contributes to the body: its line when it lies inside the
/// viewport, nothing otherwise.
pub open spec fn body_parts<T: Columnar>(
    rows: Seq<T>,
    columns: Seq<Column>,
    state: NavigationView,
) -> Seq<Seq<char>> {
    Seq::new(
        rows.len(),
        |i: int|
            if state.start <= i <= state.end {
                row_text(rows, columns, state, i)
            } else {
                Seq::empty()
            },
    )
}

/// The footer: the footer text on the row just below the last list row.
pub open spec fn footer_text(footer: Seq<char>, state: NavigationView) -> Seq<char> {
    goto_seq(1, state.span() + 3) + footer
}

/// The whole screen: header, visible rows, footer.
pub open spec fn screen_text<T: Columnar>(
    rows: Seq<T>,
    columns: Seq<Column>,
    footer: Seq<char>,
    state: NavigationView,
) -> Seq<char> {
    header_text(rows, columns, state) + joined(body_parts(rows, columns, state)) + footer_text(
        footer,
        state,
    )
}

/// The width of `column`: the longer of its label and its longest value over
/// all rows (not only the visible ones), in bytes, plus four.
pub fn get_column_width<T: Columnar>(rows: &Vec<T>, column: &Column) -> (r: usize)
    requires
        column_width(rows@, *column) <= usize::MAX,
    ensures
        r == column_width(rows@, *column),
{
    let ghost values = column_values(rows@, *column);
    let mut width = byte_length(column.get_name().as_str());
    let mut i: usize = 0;
    proof {
        assert(values.subrange(0, 0).len() == 0);
    }
    while i < rows.len()
        invariant
            i <= rows.len(),
            values == column_values(rows@, *column),
            width == (if byte_len(column.name@) >= widest(values.subrange(0, i as int)) {
                byte_len(column.name@)
            } else {
                widest(values.subrange(0, i as int))
            }),
        decreases rows.len() - i,
    {
        let value = rows[i].get_value(column);
        let value_width = byte_length(value.as_str());
        proof {
            assert(values.subrange(0, i + 1).drop_last() =~= values.subrange(0, i as int));
        }
        if value_width > width {
            width = value_width;
        }
        i = i + 1;
    }
    proof {
        assert(values.subrange(0, rows.len() as int) =~= values);
    }
    width + COLUMN_PADDING
}

/// The widths of all columns, in column order.
fn column_widths<T: Columnar>(rows: &Vec<T>, columns: &Vec<Column>) -> (r: Vec<usize>)
    requires
        widths_fit(rows@, columns@),
    ensures
        r.len() == columns.len(),
        forall|j: int|
            0 <= j < columns.len() ==> r[j] == column_width(rows@, #[trigger] columns@[j]),
{
    let mut widths: Vec<usize> = Vec::new();
    let mut j: usize = 0;
    while j < columns.len()
        invariant
            j <= columns.len(),
            widths.len() == j,
            widths_fit(rows@, columns@),
            forall|k: int| 0 <= k < j ==> widths[k] == column_width(rows@, #[trigger] columns@[k]),
        decreases columns.len() - j,
    {
        widths.push(get_column_width(rows, &columns[j]));
        j = j + 1;
    }
    widths
}

/// The header line (see `header_text`).
pub fn draw_header<T: Columnar>(
    rows: &Vec<T>,
    columns: &Vec<Column>,
    state: &NavigationState,
) -> (r: String)
    requires
        widths_fit(rows@, columns@),
    ensures
        r@ == header_text(rows@, columns@, state@),
{
    let sort_indicator = match state.get_sort_dir() {
        SortDir::Desc => "\u{2193}",
        SortDir::Asc => "\u{2191}",
    };
    proof {
        reveal_strlit("\u{2193}");
        reveal_strlit("\u{2191}");
        reveal_strlit(" ");
    }
    let ghost cells = Seq::new(
        columns.len() as nat,
        |j: int| pad_right(header_label(columns@[j], state@), column_width(rows@, columns@[j])),
    );
    let mut header_str = clear_all();
    header_str.append(goto(1, 1).as_str());
    header_str.append(yellow_fg().as_str());
    let ghost prefix = header_str@;
    let mut j: usize = 0;
    proof {
        assert(cells.subrange(0, 0) =~= Seq::<Seq<char>>::empty());
        assert(prefix + joined(cells.subrange(0, 0)) =~= prefix);
    }
    while j < columns.len()
        invariant
            j <= columns.len(),
            widths_fit(rows@, columns@),
            cells.len() == columns.len(),
            cells == Seq::new(
                columns.len() as nat,
                |j: int|
                    pad_right(
                        header_label(columns@[j], state@),
                        column_width(rows@, columns@[j]),
                    ),
            ),
            header_str@ == prefix + joined(cells.subrange(0, j as int)),
            sort_indicator@ == seq![sort_glyph(state@.sort_dir)],
            " "@ == seq![' '],
        decreases columns.len() - j,
    {
        let column = &columns[j];
        let width = get_column_width(rows, column);
        if *column.get_sort_field() == *state.get_sort_field() {
            let mut label = column.get_name().clone();
            label.append(" ");
            label.append(sort_indicator);
            push_padded(&mut header_str, label.as_str(), width);
            proof {
                assert(label@ =~= header_label(columns@[j as int], state@));
            }
        } else {
            push_padded(&mut header_str, column.get_name().as_str(), width);
        }
        proof {
            lemma_joined_prefix(cells, j as int);
        }
        j = j + 1;
    }
    proof {
        assert(cells.subrange(0, columns.len() as int) =~= cells);
    }
    header_str.append(reset_fg().as_str());
    header_str.append("\n");
    proof {
        reveal_strlit("\n");
    }
    header_str
}

/// The footer (see `footer_text`).
pub fn draw_footer(footer: &str, state: &NavigationState) -> (r: String)
    requires
        state.wf(),
    ensures
        r@ == footer_text(footer@, state@),
{
    let window_size = state.get_window_size();
    let footer_render_index = window_size + 3;
    let mut out = goto(1, footer_render_index);
    out.append(footer);
    out
}

/// The line of one row (see `row_text`).
fn draw_row<T: Columnar>(
    rows: &Vec<T>,
    columns: &Vec<Column>,
    widths: &Vec<usize>,
    state: &NavigationState,
    index: usize,
) -> (r: String)
    requires
        index < rows.len(),
        state.wf(),
        state@.start <= index <= state@.end,
        widths.len() == columns.len(),
        forall|j: int|
            0 <= j < columns.len() ==> widths[j] == column_width(rows@, #[trigger] columns@[j]),
    ensures
        r@ == row_text(rows@, columns@, state@, index as int),
{
    let ghost cells = row_cells(rows@, columns@, index as int);
    let (first, _) = state.get_visible_window();
    let mut row_str = goto(1, 2 + (index as u16 - first));
    proof {
        reveal_strlit("\r\n");
    }
    if state.get_selected_index() == index {
        row_str.append(white_bg().as_str());
        row_str.append(black_fg().as_str());
    }
    let ghost prefix = row_str@;
    let mut j: usize = 0;
    proof {
        assert(prefix + joined(cells.subrange(0, 0)) =~= prefix);
    }
    while j < columns.len()
        invariant
            j <= columns.len(),
            index < rows.len(),
            widths.len() == columns.len(),
            forall|k: int|
                0 <= k < columns.len() ==> widths[k] == column_width(rows@, #[trigger] columns@[k]),
            cells == row_cells(rows@, columns@, index as int),
            row_str@ == prefix + joined(cells.subrange(0, j as int)),
        decreases columns.len() - j,
    {
        let value = rows[index].get_value(&columns[j]);
        push_padded(&mut row_str, value.as_str(), widths[j]);
        proof {
            lemma_joined_prefix(cells, j as int);
        }
        j = j + 1;
    }
    proof {
        assert(cells.subrange(0, columns.len() as int) =~= cells);
    }
    row_str.append("\r\n");
    row_str.append(reset_bg().as_str());
    row_str.append(reset_fg().as_str());
    proof {
        let highlight = if index == state@.selected {
            white_bg_seq() + black_fg_seq()
        } else {
            Seq::empty()
        };
        assert(prefix =~= goto_seq(1, (2 + index - state@.start) as nat) + highlight);
    }
    row_str
}

/// The whole screen (see `screen_text`): only rows inside the viewport are
/// drawn, while the column widths come from every row.
pub fn draw<T: Columnar>(
    rows: &Vec<T>,
    columns: &Vec<Column>,
    footer: &str,
    state: &NavigationState,
) -> (r: String)
    requires
        state.wf(),
        widths_fit(rows@, columns@),
    ensures
        r@ == screen_text(rows@, columns@, footer@, state@),
{
    let (h1, h2) = state.get_visible_window();
    let widths = column_widths(rows, columns);
    let ghost parts = body_parts(rows@, columns@, state@);
    let mut table_str = String::new();
    let mut index: usize = 0;
    proof {
        assert(parts.subrange(0, 0) =~= Seq::<Seq<char>>::empty());
    }
    while index < rows.len()
        invariant
            index <= rows.len(),
            state.wf(),
            h1 == state@.start,
            h2 == state@.end,
            widths.len() == columns.len(),
            forall|k: int|
                0 <= k < columns.len() ==> widths[k] == column_width(rows@, #[trigger] columns@[k]),
            parts == body_parts(rows@, columns@, state@),
            table_str@ == joined(parts.subrange(0, index as int)),
        decreases rows.len() - index,
    {
        if index >= h1 as usize && index <= h2 as usize {
            let row_str = draw_row(rows, columns, &widths, state, index);
            table_str.append(row_str.as_str());
        } else {
            proof {
                assert(table_str@ + parts[index as int] =~= table_str@);
            }
        }
        proof {
            lemma_joined_prefix(parts, index as int);
        }
        index = index + 1;
    }
    proof {
        assert(parts.subrange(0, rows.len() as int) =~= parts);
    }
    let mut screen = draw_header(rows, columns, state);
    screen.append(table_str.as_str());
    screen.append(draw_footer(footer, state).as_str());
    screen
}

} // verus!
