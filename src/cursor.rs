//! Selection cursors for the station table and the satellite list.
use vstd::prelude::*;

verus! {

/// The row below `row` (or the second row when nothing is selected), kept at
/// or above `last`.
pub open spec fn row_below(row: Option<usize>, last: usize) -> usize {
    let next = match row {
        Some(r) => r + 1,
        None => 1,
    };
    if next <= last { next as usize } else { last }
}

/// The row above `row`, or the first row.
pub open spec fn row_above(row: Option<usize>) -> usize {
    match row {
        Some(r) => if r == 0 { 0 } else { (r - 1) as usize },
        None => 0,
    }
}

/// A selected row and column of a table; either may be absent.
pub struct TableCursor {
    pub row: Option<usize>,
    pub column: Option<usize>,
}

impl TableCursor {
    /// Nothing selected.
    pub fn new() -> (r: TableCursor)
        ensures
            r.row is None,
            r.column is None,
    {
        TableCursor { row: None, column: None }
    }

    /// Moves the row selection down one, to at most `last`.
    pub fn scroll_down(&mut self, last: usize)
        ensures
            final(self).row == Some(row_below(old(self).row, last)),
            final(self).column == old(self).column,
    {
        let next: usize = match self.row {
            Some(r) => if r < last { r + 1 } else { last },
            None => if 1 <= last { 1 } else { last },
        };
        self.row = Some(next);
    }

    /// Moves the row selection up one, stopping at the first row.
    pub fn scroll_up(&mut self)
        ensures
            final(self).row == Some(row_above(old(self).row)),
            final(self).column == old(self).column,
    {
        let next: usize = match self.row {
            Some(r) => if r == 0 { 0 } else { r - 1 },
            None => 0,
        };
        self.row = Some(next);
    }

    /// Moves the column selection right one, to at most `last`.
    pub fn scroll_right(&mut self, last: usize)
        ensures
            final(self).column == Some(row_below(old(self).column, last)),
            final(self).row == old(self).row,
    {
        let next: usize = match self.column {
            Some(c) => if c < last { c + 1 } else { last },
            None => if 1 <= last { 1 } else { last },
        };
        self.column = Some(next);
    }

    /// Moves the column selection left one, stopping at the first column.
    pub fn scroll_left(&mut self)
        ensures
            final(self).column == Some(row_above(old(self).column)),
            final(self).row == old(self).row,
    {
        let next: usize = match self.column {
            Some(c) => if c == 0 { 0 } else { c - 1 },
            None => 0,
        };
        self.column = Some(next);
    }
}

/// The selected entry of a list, if any.
pub struct ListCursor {
    pub selected: Option<usize>,
}

impl ListCursor {
    /// Nothing selected.
    pub fn new() -> (r: ListCursor)
        ensures
            r.selected is None,
    {
        ListCursor { selected: None }
    }

    /// Moves the selection down one, to at most `last`.
    pub fn scroll_down(&mut self, last: usize)
        ensures
            final(self).selected == Some(row_below(old(self).selected, last)),
    {
        let next: usize = match self.selected {
            Some(r) => if r < last { r + 1 } else { last },
            None => if 1 <= last { 1 } else { last },
        };
        self.selected = Some(next);
    }

    /// Moves the selection up one, stopping at the first entry.
    pub fn scroll_up(&mut self)
        ensures
            final(self).selected == Some(row_above(old(self).selected)),
    {
        let next: usize = match self.selected {
            Some(r) => if r == 0 { 0 } else { r - 1 },
            None => 0,
        };
        self.selected = Some(next);
    }
}

} // verus!
