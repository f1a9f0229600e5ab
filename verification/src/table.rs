//! Interactive table and selection widgets: row/column navigation with
//! wrap-around, multi-selection of cells, and single- or multi-select option
//! lists. Drawing them is the rendering surface's business.

use vstd::prelude::*;
use vstd::string::StringExecFns;

verus! {

/// The keys the table and select widgets react to.
#[derive(Debug, Clone, Copy, PartialEq, Eq, Structural)]
pub enum Key {
    Up,
    Down,
    Left,
    Right,
    Char(char),
}

#[derive(Debug, Clone)]
pub struct TableData {
    pub headers: Vec<String>,
    pub rows: Vec<Vec<String>>,
}

/// A table with a selected row and column, and a set of multi-selected
/// cells.
pub struct InteractiveTable {
    pub data: TableData,
    pub selected_row: Option<usize>,
    pub selected_column: usize,
    pub multi_selection: Vec<(usize, usize)>,
    pub column_percentages: Vec<u16>,
}

impl InteractiveTable {
    /// Well-formedness: at least one header and one row, selection inside
    /// the table, and each multi-selected cell recorded once.
    pub open spec fn wf(self) -> bool {
        &&& self.data.headers@.len() >= 1
        &&& self.data.rows@.len() >= 1
        &&& self.selected_column < self.data.headers@.len()
        &&& self.selected_row matches Some(r) ==> r < self.data.rows@.len()
        &&& forall|i: int, j: int|
            0 <= i < j < self.multi_selection@.len() ==> #[trigger] self.multi_selection@[i]
                != #[trigger] self.multi_selection@[j]
    }

    /// Builds a table over the data: no row selected, the first column
    /// current, no multi-selection, and the columns spread evenly.
    pub fn new(data: TableData) -> (t: InteractiveTable)
        requires
            1 <= data.headers@.len() <= 100,
            data.rows@.len() >= 1,
        ensures
            t.wf(),
            t.data == data,
            t.selected_row is None,
            t.selected_column == 0,
            t.multi_selection@.len() == 0,
            t.column_percentages@.len() == data.headers@.len(),
            forall|i: int|
                0 <= i < t.column_percentages@.len() ==> #[trigger] t.column_percentages@[i] == 100int / data.headers@.len() as int,
    {
        let column_count = data.headers.len();
        let share: u16 = (100 / column_count) as u16;
        let mut column_percentages: Vec<u16> = Vec::new();
        let mut i: usize = 0;
        while i < column_count
            invariant
                i <= column_count,
                column_percentages@.len() == i,
                share == 100 as int / column_count as int,
                forall|k: int| 0 <= k < i ==> #[trigger] column_percentages@[k] == share,
            decreases column_count - i,
        {
            column_percentages.push(share);
            i = i + 1;
        }
        InteractiveTable {
            data,
            selected_row: None,
            selected_column: 0,
            multi_selection: Vec::new(),
            column_percentages,
        }
    }

    /// Moves the row selection one down, wrapping to the top; with no row
    /// selected the first row becomes current.
    pub fn next_row(&mut self)
        requires
            old(self).wf(),
        ensures
            final(self).wf(),
            final(self).selected_row == Some(
                spec_next_row(old(self).selected_row, old(self).data.rows@.len() as int),
            ),
            final(self).data == old(self).data,
            final(self).selected_column == old(self).selected_column,
            final(self).multi_selection@ == old(self).multi_selection@,
    {
        let i = match self.selected_row {
            Some(i) => if i >= self.data.rows.len() - 1 {
                0
            } else {
                i + 1
            },
            None => 0,
        };
        self.selected_row = Some(i);
    }

    /// Moves the row selection one up, wrapping to the bottom; with no row
    /// selected the first row becomes current.
    pub fn previous_row(&mut self)
        requires
            old(self).wf(),
        ensures
            final(self).wf(),
            final(self).selected_row == Some(
                spec_previous_row(old(self).selected_row, old(self).data.rows@.len() as int),
            ),
            final(self).data == old(self).data,
            final(self).selected_column == old(self).selected_column,
            final(self).multi_selection@ == old(self).multi_selection@,
    {
        let i = match self.selected_row {
            Some(i) => if i == 0 {
                self.data.rows.len() - 1
            } else {
                i - 1
            },
            None => 0,
        };
        self.selected_row = Some(i);
    }

    /// Moves the column selection one right, wrapping to the first column.
    pub fn next_column(&mut self)
        requires
            old(self).wf(),
        ensures
            final(self).wf(),
            final(self).selected_column == spec_next_column(
                old(self).selected_column,
                old(self).data.headers@.len() as int,
            ),
            final(self).data == old(self).data,
            final(self).selected_row == old(self).selected_row,
            final(self).multi_selection@ == old(self).multi_selection@,
    {
        if self.selected_column >= self.data.headers.len() - 1 {
            self.selected_column = 0;
        } else {
            self.selected_column = self.selected_column + 1;
        }
    }

    /// Moves the column selection one left, wrapping to the last column.
    pub fn previous_column(&mut self)
        requires
            old(self).wf(),
        ensures
            final(self).wf(),
            final(self).selected_column == spec_previous_column(
                old(self).selected_column,
                old(self).data.headers@.len() as int,
            ),
            final(self).data == old(self).data,
            final(self).selected_row == old(self).selected_row,
            final(self).multi_selection@ == old(self).multi_selection@,
    {
        if self.selected_column == 0 {
            self.selected_column = self.data.headers.len() - 1;
        } else {
            self.selected_column = self.selected_column - 1;
        }
    }

    /// Reacts to a key: the arrows move the selection, `c` clears the
    /// multi-selection; anything else is not handled.
    pub fn handle_key(&mut self, key: Key) -> (handled: bool)
        requires
            old(self).wf(),
        ensures
            final(self).wf(),
            handled == match key {
                Key::Up | Key::Down | Key::Left | Key::Right => true,
                Key::Char(c) => c == 'c',
            },
            key == Key::Up ==> final(self).selected_row == Some(
                spec_previous_row(old(self).selected_row, old(self).data.rows@.len() as int),
            ) && final(self).multi_selection@ == old(self).multi_selection@,
            key == Key::Down ==> final(self).selected_row == Some(
                spec_next_row(old(self).selected_row, old(self).data.rows@.len() as int),
            ) && final(self).multi_selection@ == old(self).multi_selection@,
            key == Key::Left ==> final(self).selected_column == spec_previous_column(
                old(self).selected_column,
                old(self).data.headers@.len() as int,
            ) && final(self).multi_selection@ == old(self).multi_selection@,
            key == Key::Right ==> final(self).selected_column == spec_next_column(
                old(self).selected_column,
                old(self).data.headers@.len() as int,
            ) && final(self).multi_selection@ == old(self).multi_selection@,
            key == Key::Char('c') ==> final(self).multi_selection@.len() == 0 && final(self).data
                == old(self).data && final(self).selected_row == old(self).selected_row,
            key matches Key::Char(c) && c != 'c' ==> *final(self) == *old(self),
            final(self).data == old(self).data,
    {
        match key {
            Key::Up => {
                self.previous_row();
                true
            },
            Key::Down => {
                self.next_row();
                true
            },
            Key::Left => {
                self.previous_column();
                true
            },
            Key::Right => {
                self.next_column();
                true
            },
            Key::Char(c) => {
                if c == 'c' {
                    self.multi_selection.clear();
                    true
                } else {
                    false
                }
            },
        }
    }

    /// Whether a cell is already in the multi-selection.
    fn selection_contains(&self, cell: (usize, usize)) -> (r: bool)
        ensures
            r == self.multi_selection@.contains(cell),
    {
        let mut k: usize = 0;
        let n = self.multi_selection.len();
        while k < n
            invariant
                k <= n,
                n == self.multi_selection@.len(),
                forall|i: int| 0 <= i < k ==> #[trigger] self.multi_selection@[i] != cell,
            decreases n - k,
        {
            let (r, c) = self.multi_selection[k];
            if r == cell.0 && c == cell.1 {
                return true;
            }
            k = k + 1;
        }
        false
    }

    /// Reacts to a key with the shift state: a shifted arrow adds the
    /// current cell to the multi-selection before moving, when a row is
    /// selected; otherwise the key is handled as without shift.
    pub fn handle_key_with_shift(&mut self, key: Key, shift_pressed: bool) -> (handled: bool)
        requires
            old(self).wf(),
        ensures
            final(self).wf(),
            final(self).data == old(self).data,
            ({
                let shift_nav = shift_pressed && old(self).selected_row is Some && (key == Key::Up
                    || key == Key::Down || key == Key::Left || key == Key::Right);
                &&& (shift_nav ==> {
                    &&& handled
                    &&& final(self).multi_selection@.contains(
                        (old(self).selected_row->0, old(self).selected_column),
                    )
                    &&& forall|i: int|
                        0 <= i < old(self).multi_selection@.len() ==> final(self).multi_selection@.contains(#[trigger] old(self).multi_selection@[i])
                    &&& (key == Key::Up ==> final(self).selected_row == Some(
                        spec_previous_row(
                            old(self).selected_row,
                            old(self).data.rows@.len() as int,
                        ),
                    ) && final(self).selected_column == old(self).selected_column)
                    &&& (key == Key::Down ==> final(self).selected_row == Some(
                        spec_next_row(old(self).selected_row, old(self).data.rows@.len() as int),
                    ) && final(self).selected_column == old(self).selected_column)
                    &&& (key == Key::Left ==> final(self).selected_column == spec_previous_column(
                        old(self).selected_column,
                        old(self).data.headers@.len() as int,
                    ) && final(self).selected_row == old(self).selected_row)
                    &&& (key == Key::Right ==> final(self).selected_column == spec_next_column(
                        old(self).selected_column,
                        old(self).data.headers@.len() as int,
                    ) && final(self).selected_row == old(self).selected_row)
                })
                &&& (!shift_nav ==> {
                    &&& handled == match key {
                        Key::Up | Key::Down | Key::Left | Key::Right => true,
                        Key::Char(c) => c == 'c',
                    }
                    &&& (key == Key::Up ==> final(self).selected_row == Some(
                        spec_previous_row(
                            old(self).selected_row,
                            old(self).data.rows@.len() as int,
                        ),
                    ) && final(self).multi_selection@ == old(self).multi_selection@)
                    &&& (key == Key::Down ==> final(self).selected_row == Some(
                        spec_next_row(old(self).selected_row, old(self).data.rows@.len() as int),
                    ) && final(self).multi_selection@ == old(self).multi_selection@)
                    &&& (key == Key::Left ==> final(self).selected_column == spec_previous_column(
                        old(self).selected_column,
                        old(self).data.headers@.len() as int,
                    ) && final(self).multi_selection@ == old(self).multi_selection@)
                    &&& (key == Key::Right ==> final(self).selected_column == spec_next_column(
                        old(self).selected_column,
                        old(self).data.headers@.len() as int,
                    ) && final(self).multi_selection@ == old(self).multi_selection@)
                    &&& (key == Key::Char('c') ==> final(self).multi_selection@.len() == 0
                        && final(self).selected_row == old(self).selected_row)
                    &&& (key matches Key::Char(c) && c != 'c' ==> *final(self) == *old(self))
                })
            }),
    {
        if shift_pressed {
            let sel = self.selected_row;
            match sel {
                Some(current_row) => {
                    let is_arrow = match key {
                        Key::Up | Key::Down | Key::Left | Key::Right => true,
                        Key::Char(_) => false,
                    };
                    if is_arrow {
                        let cell = (current_row, self.selected_column);
                        if !self.selection_contains(cell) {
                            let ghost before = self.multi_selection@;
                            self.multi_selection.push(cell);
                            proof {
                                assert forall|i: int, j: int|
                                    0 <= i < j < self.multi_selection@.len() implies #[trigger] self.multi_selection@[i] != #[trigger] self.multi_selection@[j] by {
                                    if j == self.multi_selection@.len() - 1 {
                                        assert(!old(self).multi_selection@.contains(cell));
                                    }
                                }
                                assert(self.multi_selection@[self.multi_selection@.len() - 1]
                                    == cell);
                                assert(self.multi_selection@.contains(cell));
                                assert forall|i: int|
                                    0 <= i < old(self).multi_selection@.len() implies self.multi_selection@.contains(
                                    #[trigger] old(self).multi_selection@[i],
                                ) by {
                                    assert(self.multi_selection@[i] == before[i]);
                                }
                            }
                        } else {
                            proof {
                                assert forall|i: int|
                                    0 <= i < old(self).multi_selection@.len() implies self.multi_selection@.contains(
                                    #[trigger] old(self).multi_selection@[i],
                                ) by {
                                    assert(self.multi_selection@[i] == old(self).multi_selection@[i]);
                                }
                            }
                        }
                        match key {
                            Key::Up => {
                                self.previous_row();
                            },
                            Key::Down => {
                                self.next_row();
                            },
                            Key::Left => {
                                self.previous_column();
                            },
                            Key::Right => {
                                self.next_column();
                            },
                            Key::Char(_) => {},
                        }
                        return true;
                    }
                },
                None => {},
            }
        }
        self.handle_key(key)
    }

    /// How many cells are multi-selected.
    pub fn get_selection_count(&self) -> (n: usize)
        ensures
            n == self.multi_selection@.len(),
    {
        self.multi_selection.len()
    }

    /// The multi-selected cells as `(row, column)` pairs.
    pub fn get_selected_cells(&self) -> (r: Vec<(usize, usize)>)
        ensures
            r@ == self.multi_selection@,
    {
        let mut r: Vec<(usize, usize)> = Vec::new();
        let n = self.multi_selection.len();
        let mut k: usize = 0;
        while k < n
            invariant
                k <= n,
                n == self.multi_selection@.len(),
                r@ == self.multi_selection@.subrange(0, k as int),
            decreases n - k,
        {
            r.push(self.multi_selection[k]);
            proof {
                assert(r@ =~= self.multi_selection@.subrange(0, k + 1));
            }
            k = k + 1;
        }
        proof {
            assert(r@ =~= self.multi_selection@);
        }
        r
    }
}

/// The row selected after one step down, wrapping to the top.
pub open spec fn spec_next_row(sel: Option<usize>, rows: int) -> usize {
    match sel {
        Some(i) => if i + 1 >= rows {
            0usize
        } else {
            (i + 1) as usize
        },
        None => 0usize,
    }
}

/// The row selected after one step up, wrapping to the bottom.
pub open spec fn spec_previous_row(sel: Option<usize>, rows: int) -> usize {
    match sel {
        Some(i) => if i == 0 {
            (rows - 1) as usize
        } else {
            (i - 1) as usize
        },
        None => 0usize,
    }
}

/// The column selected after one step right, wrapping to the first.
pub open spec fn spec_next_column(col: usize, cols: int) -> usize {
    if col + 1 >= cols {
        0usize
    } else {
        (col + 1) as usize
    }
}

/// The column selected after one step left, wrapping to the last.
pub open spec fn spec_previous_column(col: usize, cols: int) -> usize {
    if col == 0 {
        (cols - 1) as usize
    } else {
        (col - 1) as usize
    }
}

/// Builds the six-row demonstration table.
pub fn create_demo_table() -> (t: InteractiveTable)
    ensures
        t.wf(),
        t.data.rows@.len() == 6,
        t.data.headers@.len() == 4,
        t.selected_row is None,
        t.selected_column == 0,
        t.multi_selection@.len() == 0,
        t.column_percentages@.len() == 4,
{
    let mut headers: Vec<String> = Vec::new();
    headers.push("Name".to_owned());
    headers.push("Age".to_owned());
    headers.push("City".to_owned());
    headers.push("Status".to_owned());

    let mut rows: Vec<Vec<String>> = Vec::new();
    let mut row: Vec<String> = Vec::new();
    row.push("Alice".to_owned());
    row.push("25".to_owned());
    row.push("New York".to_owned());
    row.push("Active".to_owned());
    rows.push(row);
    let mut row: Vec<String> = Vec::new();
    row.push("Bob".to_owned());
    row.push("30".to_owned());
    row.push("London".to_owned());
    row.push("Active".to_owned());
    rows.push(row);
    let mut row: Vec<String> = Vec::new();
    row.push("Charlie".to_owned());
    row.push("35".to_owned());
    row.push("Tokyo".to_owned());
    row.push("Inactive".to_owned());
    rows.push(row);
    let mut row: Vec<String> = Vec::new();
    row.push("Diana".to_owned());
    row.push("28".to_owned());
    row.push("Paris".to_owned());
    row.push("Active".to_owned());
    rows.push(row);
    let mut row: Vec<String> = Vec::new();
    row.push("Eve".to_owned());
    row.push("32".to_owned());
    row.push("Berlin".to_owned());
    row.push("Active".to_owned());
    rows.push(row);
    let mut row: Vec<String> = Vec::new();
    row.push("Frank".to_owned());
    row.push("29".to_owned());
    row.push("Sydney".to_owned());
    row.push("Inactive".to_owned());
    rows.push(row);

    InteractiveTable::new(TableData { headers, rows })
}

/// One selectable option: a label shown to the user, the value it stands
/// for, and whether it can be chosen.
#[derive(Debug, Clone)]
pub struct SelectOption {
    pub label: String,
    pub value: String,
    pub enabled: bool,
}

impl SelectOption {
    /// An enabled option.
    pub fn new(label: &str, value: &str) -> (o: SelectOption)
        ensures
            o.label@ == label@,
            o.value@ == value@,
            o.enabled,
    {
        SelectOption { label: label.to_owned(), value: value.to_owned(), enabled: true }
    }

    /// A disabled option: shown, but never selectable.
    pub fn disabled(label: &str, value: &str) -> (o: SelectOption)
        ensures
            o.label@ == label@,
            o.value@ == value@,
            !o.enabled,
    {
        SelectOption { label: label.to_owned(), value: value.to_owned(), enabled: false }
    }
}


/// The label of the first option carrying a value.
pub open spec fn spec_first_label(options: Seq<SelectOption>, value: Seq<char>) -> Option<
    Seq<char>,
>
    decreases options.len(),
{
    if options.len() == 0 {
        None
    } else if options.first().value@ == value {
        Some(options.first().label@)
    } else {
        spec_first_label(options.drop_first(), value)
    }
}

/// The labels of the chosen values in order: each value contributes the
/// label of the first option carrying it, values no option carries
/// contribute nothing.
pub open spec fn spec_selected_labels(options: Seq<SelectOption>, values: Seq<String>) -> Seq<
    Seq<char>,
>
    decreases values.len(),
{
    if values.len() == 0 {
        Seq::empty()
    } else {
        let rest = spec_selected_labels(options, values.drop_last());
        match spec_first_label(options, values.last()@) {
            Some(l) => rest.push(l),
            None => rest,
        }
    }
}

#[derive(Debug, Clone, Copy, PartialEq, Eq, Structural)]
pub enum SelectType {
    Dropdown,
    RadioGroup,
    CheckboxGroup,
}

/// A select widget: its options, the highlighted index, the chosen values
/// (one for a dropdown or radio group, any number for checkboxes), and
/// whether a dropdown stands open.
pub struct SelectComponent {
    pub options: Vec<SelectOption>,
    pub selected_index: usize,
    pub selected_values: Vec<String>,
    pub is_open: bool,
    pub select_type: SelectType,
    pub title: String,
}

impl SelectComponent {
    pub open spec fn wf(self) -> bool {
        &&& self.options@.len() >= 1
        &&& self.selected_index < self.options@.len()
    }

    /// Builds a select widget with the first option highlighted and nothing
    /// chosen yet.
    pub fn new(title: &str, options: Vec<SelectOption>, select_type: SelectType) -> (c:
        SelectComponent)
        requires
            options@.len() >= 1,
        ensures
            c.wf(),
            c.options@ == options@,
            c.selected_index == 0,
            c.selected_values@.len() == 0,
            !c.is_open,
            c.select_type == select_type,
            c.title@ == title@,
    {
        SelectComponent {
            options,
            selected_index: 0,
            selected_values: Vec::new(),
            is_open: false,
            select_type,
            title: title.to_owned(),
        }
    }

    /// Highlights the next option, wrapping to the first.
    pub fn next(&mut self)
        requires
            old(self).wf(),
        ensures
            final(self).wf(),
            final(self).selected_index == if old(self).selected_index + 1 >= old(self).options@.len() {
                0usize
            } else {
                (old(self).selected_index + 1) as usize
            },
            final(self).options@ == old(self).options@,
            final(self).selected_values@ == old(self).selected_values@,
            final(self).is_open == old(self).is_open,
    {
        if self.selected_index >= self.options.len() - 1 {
            self.selected_index = 0;
        } else {
            self.selected_index = self.selected_index + 1;
        }
    }

    /// Highlights the previous option, wrapping to the last.
    pub fn previous(&mut self)
        requires
            old(self).wf(),
        ensures
            final(self).wf(),
            final(self).selected_index == if old(self).selected_index == 0 {
                (old(self).options@.len() - 1) as usize
            } else {
                (old(self).selected_index - 1) as usize
            },
            final(self).options@ == old(self).options@,
            final(self).selected_values@ == old(self).selected_values@,
            final(self).is_open == old(self).is_open,
    {
        if self.selected_index == 0 {
            self.selected_index = self.options.len() - 1;
        } else {
            self.selected_index = self.selected_index - 1;
        }
    }

    /// Opens or closes a dropdown's option list.
    pub fn toggle_open(&mut self)
        requires
            old(self).wf(),
        ensures
            final(self).wf(),
            final(self).is_open == !old(self).is_open,
            final(self).options@ == old(self).options@,
            final(self).selected_index == old(self).selected_index,
            final(self).selected_values@ == old(self).selected_values@,
    {
        self.is_open = !self.is_open;
    }

    /// Position of a value among the chosen ones.
    fn value_position(&self, value: &String) -> (r: Option<usize>)
        ensures
            match r {
                Some(k) => k < self.selected_values@.len() && self.selected_values@[k as int]@
                    == value@ && (forall|i: int|
                    0 <= i < k ==> (#[trigger] self.selected_values@[i])@ != value@),
                None => forall|i: int|
                    0 <= i < self.selected_values@.len()
                        ==> (#[trigger] self.selected_values@[i])@ != value@,
            },
    {
        let n = self.selected_values.len();
        let mut k: usize = 0;
        while k < n
            invariant
                k <= n,
                n == self.selected_values@.len(),
                forall|i: int| 0 <= i < k ==> (#[trigger] self.selected_values@[i])@ != value@,
            decreases n - k,
        {
            if crate::input::strings_equal(self.selected_values[k].as_str(), value.as_str()) {
                return Some(k);
            }
            k = k + 1;
        }
        None
    }

    /// Chooses the highlighted option, if it is enabled: a dropdown or radio
    /// group replaces the chosen value and a dropdown closes; a checkbox
    /// group toggles the value in or out of the chosen set. A disabled
    /// option changes nothing.
    pub fn select_current(&mut self)
        requires
            old(self).wf(),
        ensures
            final(self).wf(),
            final(self).options@ == old(self).options@,
            final(self).selected_index == old(self).selected_index,
            !old(self).options@[old(self).selected_index as int].enabled ==> *final(self) == *old(self),
            final(self).select_type == old(self).select_type,
            final(self).title == old(self).title,
            (old(self).options@[old(self).selected_index as int].enabled && (old(self).select_type
                == SelectType::Dropdown || old(self).select_type == SelectType::RadioGroup)) ==> {
                &&& final(self).selected_values@.len() == 1
                &&& final(self).selected_values@[0]@ == old(self).options@[
                old(self).selected_index as int].value@
                &&& !final(self).is_open
            },
            (old(self).options@[old(self).selected_index as int].enabled && old(self).select_type
                == SelectType::CheckboxGroup) ==> {
                let v = old(self).options@[old(self).selected_index as int].value@;
                let views = old(self).selected_values@.map_values(|s: String| s@);
                &&& final(self).is_open == old(self).is_open
                &&& ((exists|i: int| 0 <= i < views.len() && (#[trigger] views[i]) == v)
                    ==> exists|p: int|
                    {
                        &&& 0 <= p < views.len()
                        &&& (#[trigger] views[p]) == v
                        &&& (forall|i: int| 0 <= i < p ==> views[i] != v)
                        &&& final(self).selected_values@.map_values(|s: String| s@)
                            == views.remove(p)
                    })
                &&& ((forall|i: int| 0 <= i < views.len() ==> (#[trigger] views[i]) != v) ==> final(self).selected_values@.map_values(|s: String| s@) == views.push(v))
            },
    {
        let idx = self.selected_index;
        let enabled = self.options[idx].enabled;
        if !enabled {
            return ;
        }
        match self.select_type {
            SelectType::Dropdown | SelectType::RadioGroup => {
                let value = self.options[idx].value.clone();
                self.selected_values = Vec::new();
                self.selected_values.push(value);
                self.is_open = false;
            },
            SelectType::CheckboxGroup => {
                let value = self.options[idx].value.clone();
                let pos = self.value_position(&value);
                let ghost views = old(self).selected_values@.map_values(|s: String| s@);
                match pos {
                    Some(p) => {
                        let _ = self.selected_values.remove(p);
                        proof {
                            assert(self.selected_values@.map_values(|s: String| s@)
                                =~= views.remove(p as int));
                            assert(views[p as int] == value@);
                        }
                    },
                    None => {
                        self.selected_values.push(value);
                        proof {
                            assert(self.selected_values@.map_values(|s: String| s@) =~= views.push(
                                self.selected_values@.last()@,
                            ));
                        }
                    },
                }
            },
        }
    }

    /// The labels of the chosen values, in the order they were chosen: each
    /// chosen value contributes the label of the first option carrying it,
    /// and values no option carries contribute nothing.
    pub fn get_selected_labels(&self) -> (r: Vec<String>)
        ensures
            r@.map_values(|s: String| s@) == spec_selected_labels(
                self.options@,
                self.selected_values@,
            ),
    {
        let mut r: Vec<String> = Vec::new();
        let n = self.selected_values.len();
        let mut k: usize = 0;
        proof {
            assert(self.selected_values@.subrange(0, 0) =~= Seq::<String>::empty());
            assert(r@.map_values(|s: String| s@) =~= Seq::<Seq<char>>::empty());
        }
        while k < n
            invariant
                k <= n,
                n == self.selected_values@.len(),
                r@.map_values(|s: String| s@) == spec_selected_labels(
                    self.options@,
                    self.selected_values@.subrange(0, k as int),
                ),
            decreases n - k,
        {
            let m = self.options.len();
            let mut j: usize = 0;
            let value = &self.selected_values[k];
            proof {
                assert(self.options@.subrange(0, m as int) =~= self.options@);
            }
            while j < m && !crate::input::strings_equal(
                self.options[j].value.as_str(),
                value.as_str(),
            )
                invariant
                    j <= m,
                    m == self.options@.len(),
                    k < n,
                    n == self.selected_values@.len(),
                    value == self.selected_values@[k as int],
                    spec_first_label(self.options@, value@) == spec_first_label(
                        self.options@.subrange(j as int, m as int),
                        value@,
                    ),
                decreases m - j,
            {
                proof {
                    assert(self.options@.subrange(j as int, m as int).drop_first()
                        =~= self.options@.subrange(j + 1, m as int));
                }
                j = j + 1;
            }
            let ghost before = r@;
            let ghost prefix = self.selected_values@.subrange(0, k as int);
            let ghost prefix1 = self.selected_values@.subrange(0, k + 1);
            proof {
                assert(prefix1.drop_last() =~= prefix);
                assert(prefix1.last() == self.selected_values@[k as int]);
            }
            if j < m {
                proof {
                    assert(self.options@.subrange(j as int, m as int).first() == self.options@[
                        j as int]);
                }
                r.push(self.options[j].label.clone());
                proof {
                    assert(r@.map_values(|s: String| s@) =~= before.map_values(
                        |s: String| s@,
                    ).push(self.options@[j as int].label@));
                }
            } else {
                proof {
                    assert(self.options@.subrange(j as int, m as int).len() == 0);
                }
            }
            k = k + 1;
        }
        proof {
            assert(self.selected_values@.subrange(0, n as int) =~= self.selected_values@);
        }
        r
    }
}

} // verus!
