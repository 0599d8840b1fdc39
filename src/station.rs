//! The ground-station table and its editing sub-machine:
//! `RowSelect -> CellSelect -> CellEdit`, unwound one level at a time by `Back`.
use vstd::prelude::*;
use crate::cursor::{row_above, row_below, TableCursor};
use crate::decimal::{is_decimal, magnitude_at_most, Decimal};
use crate::messages::{GSConfigMsg, Key, ListMovement, Message};
use crate::records::{GroundSite, TLGroundStation};
use crate::status::CurrentMsg;
use crate::text::is_digit;

verus! {

/// The last editable column: active, name, latitude, longitude, altitude.
pub const LAST_COLUMN: usize = 4;

#[derive(Clone, Copy, PartialEq, Eq, Structural)]
pub enum GSconfigState {
    RowSelect,
    CellSelect,
    CellEdit,
}

pub struct GSconfiguration {
    pub station_list: Vec<TLGroundStation>,
    pub table_state: TableCursor,
    pub editing: GSconfigState,
    pub current_msg: CurrentMsg,
    pub current_edit_buffer: String,
}

/// `a` and `b` hold the same stations but perhaps at index `row`.
pub open spec fn same_except(a: Seq<TLGroundStation>, b: Seq<TLGroundStation>, row: int) -> bool {
    &&& a.len() == b.len()
    &&& forall|i: int| 0 <= i < a.len() && i != row ==> #[trigger] b[i] == a[i]
}

/// The buffer after `key` is typed into `column`.
pub open spec fn typed_buffer(column: usize, buf: Seq<char>, key: Key) -> Seq<char> {
    match key {
        Key::Char(x) => if column == 1 {
            buf.push(x)
        } else if 2 <= column <= LAST_COLUMN {
            if is_digit(x) || x == '.' {
                buf.push(x)
            } else if x == '-' {
                if buf.len() > 0 && buf[0] == '-' {
                    buf.drop_first()
                } else {
                    seq!['-'] + buf
                }
            } else {
                buf
            }
        } else {
            buf
        },
        _ => buf,
    }
}

/// The status text with which committing `buf` into `column` is refused, if it is.
pub open spec fn commit_error(column: usize, buf: Seq<char>) -> Option<Seq<char>> {
    if column == 1 {
        None
    } else if !is_decimal(buf) {
        Some("Unable to parse value"@)
    } else if column == 2 && !magnitude_at_most(buf, 90) {
        Some("Latitude Value out of range"@)
    } else if column == 3 && !magnitude_at_most(buf, 180) {
        Some("Longitude value out of range"@)
    } else {
        None
    }
}

/// `new` is `old` with the field of `column` set to `buf`.
pub open spec fn stored_field(old: GroundSite, new: GroundSite, column: usize, buf: Seq<char>) -> bool {
    &&& if column == 1 { new.name@ == buf } else { new.name == old.name }
    &&& if column == 2 { new.lat@ == buf } else { new.lat == old.lat }
    &&& if column == 3 { new.long@ == buf } else { new.long == old.long }
    &&& if column == 4 { new.alt@ == buf } else { new.alt == old.alt }
}

impl GSconfiguration {
    /// The buffer holds text only while a cell is edited, and outside
    /// `RowSelect` the cursor is on an existing station and an editable column.
    pub open spec fn inv(&self) -> bool {
        &&& self.current_edit_buffer@.len() > 0 ==> self.editing == GSconfigState::CellEdit
        &&& self.editing != GSconfigState::RowSelect ==> {
            &&& self.table_state.row is Some
            &&& self.table_state.row.unwrap() < self.station_list.len()
            &&& self.table_state.column is Some
            &&& self.table_state.column.unwrap() <= LAST_COLUMN
        }
        &&& self.editing == GSconfigState::CellEdit ==> self.table_state.column.unwrap() >= 1
    }

    pub open spec fn sel_row(&self) -> int {
        self.table_state.row.unwrap() as int
    }

    pub open spec fn sel_column(&self) -> usize {
        self.table_state.column.unwrap()
    }

    /// A table over `stations` with nothing selected, showing `msg`.
    pub fn new(stations: Vec<TLGroundStation>, msg: CurrentMsg) -> (r: GSconfiguration)
        ensures
            r.inv(),
            r.station_list == stations,
            r.editing == GSconfigState::RowSelect,
            r.table_state.row is None,
            r.table_state.column is None,
            r.current_msg == msg,
            r.current_edit_buffer@.len() == 0,
    {
        GSconfiguration {
            station_list: stations,
            table_state: TableCursor::new(),
            editing: GSconfigState::RowSelect,
            current_msg: msg,
            current_edit_buffer: String::new(),
        }
    }

    /// Up and down move the row in `RowSelect` (down to the add row at most);
    /// left and right move the column in `CellSelect`.
    pub open spec fn moved(old: GSconfiguration, mv: ListMovement, new: GSconfiguration) -> bool {
        let t = old.table_state;
        let nt = new.table_state;
        &&& new.station_list == old.station_list
        &&& new.editing == old.editing
        &&& new.current_msg == old.current_msg
        &&& new.current_edit_buffer == old.current_edit_buffer
        &&& if mv == ListMovement::Up && old.editing == GSconfigState::RowSelect {
            nt.row == Some(row_above(t.row)) && nt.column == t.column
        } else if mv == ListMovement::Down && old.editing == GSconfigState::RowSelect {
            nt.row == Some(row_below(t.row, old.station_list.len() as usize)) && nt.column
                == t.column
        } else if mv == ListMovement::Left && old.editing == GSconfigState::CellSelect {
            nt.column == Some(row_above(t.column)) && nt.row == t.row
        } else if mv == ListMovement::Right && old.editing == GSconfigState::CellSelect {
            nt.column == Some(row_below(t.column, LAST_COLUMN)) && nt.row == t.row
        } else {
            nt == t
        }
    }

    pub fn move_cursor(&mut self, mv: ListMovement)
        requires
            old(self).inv(),
        ensures
            final(self).inv(),
            Self::moved(*old(self), mv, *final(self)),
    {
        match mv {
            ListMovement::Up => {
                if self.editing == GSconfigState::RowSelect {
                    self.table_state.scroll_up();
                }
            },
            ListMovement::Down => {
                if self.editing == GSconfigState::RowSelect {
                    let last = self.station_list.len();
                    self.table_state.scroll_down(last);
                }
            },
            ListMovement::Left => {
                if self.editing == GSconfigState::CellSelect {
                    self.table_state.scroll_left();
                }
            },
            ListMovement::Right => {
                if self.editing == GSconfigState::CellSelect {
                    self.table_state.scroll_right(LAST_COLUMN);
                }
            },
            ListMovement::Select => {},
        }
    }

    /// Selecting in `RowSelect`: the add row appends a zeroed, inactive station;
    /// it or an existing row then has its first column selected in `CellSelect`.
    pub open spec fn row_selected(old: GSconfiguration, new: GSconfiguration) -> bool {
        let n = old.station_list.len();
        &&& new.current_msg == old.current_msg
        &&& new.current_edit_buffer == old.current_edit_buffer
        &&& new.table_state.row == old.table_state.row
        &&& if old.table_state.row == Some(n as usize) {
            &&& new.station_list@.len() == n + 1
            &&& new.station_list@.take(n as int) == old.station_list@
            &&& !new.station_list@[n as int].active
            &&& new.station_list@[n as int].station.name@.len() == 0
            &&& new.station_list@[n as int].station.lat@ == seq!['0']
            &&& new.station_list@[n as int].station.long@ == seq!['0']
            &&& new.station_list@[n as int].station.alt@ == seq!['0']
            &&& new.editing == GSconfigState::CellSelect
            &&& new.table_state.column == Some(0usize)
        } else if old.table_state.row is Some && old.table_state.row.unwrap() < n {
            &&& new.station_list == old.station_list
            &&& new.editing == GSconfigState::CellSelect
            &&& new.table_state.column == Some(0usize)
        } else {
            &&& new.station_list == old.station_list
            &&& new.editing == old.editing
            &&& new.table_state == old.table_state
        }
    }

    fn select_row(&mut self)
        requires
            old(self).inv(),
            old(self).editing == GSconfigState::RowSelect,
        ensures
            final(self).inv(),
            Self::row_selected(*old(self), *final(self)),
    {
        if let Some(index) = self.table_state.row {
            let n = self.station_list.len();
            if index == n {
                self.station_list.push(TLGroundStation { station: GroundSite::zeroed(), active: false });
                self.editing = GSconfigState::CellSelect;
                self.table_state.column = Some(0);
                proof {
                    assert(self.station_list@.take(n as int) =~= old(self).station_list@);
                }
            } else if index < n {
                self.editing = GSconfigState::CellSelect;
                self.table_state.column = Some(0);
            }
        }
    }

    /// Selecting in `CellSelect`: column 0 flips the active flag at once, the
    /// other columns open the cell for editing.
    pub open spec fn cell_selected(old: GSconfiguration, new: GSconfiguration) -> bool {
        let r = old.sel_row();
        &&& new.current_msg == old.current_msg
        &&& new.current_edit_buffer == old.current_edit_buffer
        &&& new.table_state == old.table_state
        &&& if old.sel_column() == 0 {
            &&& same_except(old.station_list@, new.station_list@, r)
            &&& new.station_list@[r].active == !old.station_list@[r].active
            &&& new.station_list@[r].station == old.station_list@[r].station
            &&& new.editing == old.editing
        } else {
            &&& new.station_list == old.station_list
            &&& new.editing == GSconfigState::CellEdit
        }
    }

    pub fn handle_cell_select(&mut self)
        requires
            old(self).inv(),
            old(self).editing == GSconfigState::CellSelect,
        ensures
            final(self).inv(),
            Self::cell_selected(*old(self), *final(self)),
    {
        let index = self.table_state.row.unwrap();
        let column = self.table_state.column.unwrap();
        if column == 0 {
            let flipped = !self.station_list[index].active;
            self.station_list[index].active = flipped;
        } else {
            self.editing = GSconfigState::CellEdit;
        }
    }

    /// `Back` unwinds one level; from `RowSelect` it asks to close the table.
    pub open spec fn backed(old: GSconfiguration, new: GSconfiguration, r: Option<Message>) -> bool {
        &&& new.station_list == old.station_list
        &&& new.current_msg == old.current_msg
        &&& new.table_state.row == old.table_state.row
        &&& match old.editing {
            GSconfigState::RowSelect => {
                &&& r is Some && r.unwrap() is ToggleGSConfig
                &&& new == old
            },
            GSconfigState::CellSelect => {
                &&& r is None
                &&& new.editing == GSconfigState::RowSelect
                &&& new.table_state.column is None
                &&& new.current_edit_buffer == old.current_edit_buffer
            },
            GSconfigState::CellEdit => {
                &&& r is None
                &&& new.editing == GSconfigState::CellSelect
                &&& new.table_state.column == old.table_state.column
                &&& new.current_edit_buffer@.len() == 0
            },
        }
    }

    pub fn back(&mut self) -> (r: Option<Message>)
        requires
            old(self).inv(),
        ensures
            final(self).inv(),
            Self::backed(*old(self), *final(self), r),
    {
        match self.editing {
            GSconfigState::RowSelect => Some(Message::ToggleGSConfig),
            GSconfigState::CellSelect => {
                self.editing = GSconfigState::RowSelect;
                self.table_state.column = None;
                None
            },
            GSconfigState::CellEdit => {
                self.editing = GSconfigState::CellSelect;
                self.current_edit_buffer = String::new();
                None
            },
        }
    }

    /// Typing changes only the buffer, and only in `CellEdit`.
    pub open spec fn typed(old: GSconfiguration, key: Key, new: GSconfiguration) -> bool {
        &&& new.station_list == old.station_list
        &&& new.current_msg == old.current_msg
        &&& new.table_state == old.table_state
        &&& new.editing == old.editing
        &&& if old.editing == GSconfigState::CellEdit {
            new.current_edit_buffer@ == typed_buffer(old.sel_column(), old.current_edit_buffer@, key)
        } else {
            new.current_edit_buffer == old.current_edit_buffer
        }
    }

    pub fn letter_typed(&mut self, key: Key)
        requires
            old(self).inv(),
        ensures
            final(self).inv(),
            Self::typed(*old(self), key, *final(self)),
    {
        if self.editing != GSconfigState::CellEdit {
            return;
        }
        let column = self.table_state.column.unwrap();
        if let Key::Char(x) = key {
            if column == 1 {
                self.current_edit_buffer.push(x);
            } else if 2 <= column && column <= LAST_COLUMN {
                if ('0' <= x && x <= '9') || x == '.' {
                    self.current_edit_buffer.push(x);
                } else if x == '-' {
                    let s = self.current_edit_buffer.as_str();
                    if s.unicode_len() > 0 && s.get_char(0) == '-' {
                        self.current_edit_buffer.remove(0);
                    } else {
                        self.current_edit_buffer.insert(0, '-');
                    }
                }
            }
        }
    }

    /// Backspace drops the last character of the buffer in `CellEdit`.
    pub open spec fn backspaced(old: GSconfiguration, new: GSconfiguration) -> bool {
        &&& new.station_list == old.station_list
        &&& new.current_msg == old.current_msg
        &&& new.table_state == old.table_state
        &&& new.editing == old.editing
        &&& if old.editing == GSconfigState::CellEdit && old.current_edit_buffer@.len() > 0 {
            new.current_edit_buffer@ == old.current_edit_buffer@.drop_last()
        } else {
            new.current_edit_buffer@ == old.current_edit_buffer@
        }
    }

    pub fn backspace(&mut self)
        requires
            old(self).inv(),
        ensures
            final(self).inv(),
            Self::backspaced(*old(self), *final(self)),
    {
        if self.editing == GSconfigState::CellEdit {
            self.current_edit_buffer.pop();
        }
    }

    /// Committing the buffer in `CellEdit`. A refused value leaves everything
    /// but the status as it was. An accepted one is stored, the buffer is
    /// cleared, and the selection moves right (a name leaves `CellEdit` for
    /// `CellSelect`); after the last column the table returns to `RowSelect`.
    pub open spec fn committed(old: GSconfiguration, new: GSconfiguration) -> bool {
        let r = old.sel_row();
        let c = old.sel_column();
        let buf = old.current_edit_buffer@;
        if old.editing != GSconfigState::CellEdit {
            new == old
        } else {
            match commit_error(c, buf) {
                Some(t) => {
                    &&& new.current_msg.error
                    &&& new.current_msg.text@ == t
                    &&& new.station_list == old.station_list
                    &&& new.table_state == old.table_state
                    &&& new.editing == old.editing
                    &&& new.current_edit_buffer == old.current_edit_buffer
                },
                None => {
                    &&& new.current_msg == old.current_msg
                    &&& new.current_edit_buffer@.len() == 0
                    &&& new.table_state.row == old.table_state.row
                    &&& same_except(old.station_list@, new.station_list@, r)
                    &&& new.station_list@[r].active == old.station_list@[r].active
                    &&& stored_field(old.station_list@[r].station, new.station_list@[r].station, c, buf)
                    &&& if c == 1 {
                        new.editing == GSconfigState::CellSelect && new.table_state.column == Some(2usize)
                    } else if c < LAST_COLUMN {
                        new.editing == GSconfigState::CellEdit && new.table_state.column == Some((c + 1) as usize)
                    } else {
                        new.editing == GSconfigState::RowSelect && new.table_state.column == old.table_state.column
                    }
                },
            }
        }
    }

    pub fn handle_stop_editing(&mut self)
        requires
            old(self).inv(),
        ensures
            final(self).inv(),
            Self::committed(*old(self), *final(self)),
    {
        if self.editing != GSconfigState::CellEdit {
            return;
        }
        let row = self.table_state.row.unwrap();
        let column = self.table_state.column.unwrap();
        if column == 1 {
            let name = self.current_edit_buffer.clone();
            self.station_list[row].station.name = name;
            self.current_edit_buffer = String::new();
            self.editing = GSconfigState::CellSelect;
            self.table_state.column = Some(2);
            return;
        }
        let parsed = Decimal::parse(self.current_edit_buffer.as_str());
        let value = match parsed {
            Some(v) => v,
            None => {
                self.current_msg = CurrentMsg::error("Unable to parse value");
                return;
            },
        };
        if column == 2 && !value.magnitude_at_most(90) {
            self.current_msg = CurrentMsg::error("Latitude Value out of range");
            return;
        }
        if column == 3 && !value.magnitude_at_most(180) {
            self.current_msg = CurrentMsg::error("Longitude value out of range");
            return;
        }
        if column == 2 {
            self.station_list[row].station.lat = value;
        } else if column == 3 {
            self.station_list[row].station.long = value;
        } else {
            self.station_list[row].station.alt = value;
        }
        self.current_edit_buffer = String::new();
        if column < LAST_COLUMN {
            self.table_state.column = Some(column + 1);
        } else {
            self.editing = GSconfigState::RowSelect;
        }
    }

    /// One message of the table, as the transitions above describe it.
    pub open spec fn transition(old: GSconfiguration, msg: GSConfigMsg, new: GSconfiguration, r: Option<Message>) -> bool {
        match msg {
            GSConfigMsg::ListMovement(ListMovement::Select) => r is None && match old.editing {
                GSconfigState::RowSelect => Self::row_selected(old, new),
                GSconfigState::CellSelect => Self::cell_selected(old, new),
                GSconfigState::CellEdit => new == old,
            },
            GSConfigMsg::ListMovement(mv) => r is None && Self::moved(old, mv, new),
            GSConfigMsg::Back => Self::backed(old, new, r),
            GSConfigMsg::Backspace => r is None && Self::backspaced(old, new),
            GSConfigMsg::StopEditing => r is None && Self::committed(old, new),
            GSConfigMsg::LetterTyped(key) => r is None && Self::typed(old, key, new),
        }
    }

    /// Applies one message of the table.
    pub fn handle_message(&mut self, msg: GSConfigMsg) -> (r: Option<Message>)
        requires
            old(self).inv(),
        ensures
            final(self).inv(),
            Self::transition(*old(self), msg, *final(self), r),
    {
        match msg {
            GSConfigMsg::ListMovement(ListMovement::Select) => {
                match self.editing {
                    GSconfigState::RowSelect => self.select_row(),
                    GSconfigState::CellSelect => self.handle_cell_select(),
                    GSconfigState::CellEdit => {},
                }
                None
            },
            GSConfigMsg::ListMovement(mv) => {
                self.move_cursor(mv);
                None
            },
            GSConfigMsg::Back => self.back(),
            GSConfigMsg::Backspace => {
                self.backspace();
                None
            },
            GSConfigMsg::StopEditing => {
                self.handle_stop_editing();
                None
            },
            GSConfigMsg::LetterTyped(key) => {
                self.letter_typed(key);
                None
            },
        }
    }
}

} // verus!
