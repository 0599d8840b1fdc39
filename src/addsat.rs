//! The add-satellite form: a NORAD catalog number field and a field for
//! pasted element-set text, with an editing flag that gates typing.
use vstd::prelude::*;
use crate::decimal::digits_value;
use crate::messages::Key;
use crate::text::is_digit;

verus! {

/// The longest catalog number the form takes, in characters.
pub const NORAD_ID_MAX_LEN: usize = 5;

/// The fewest characters each line of pasted elements must have.
pub const ELEMENT_LINE_MIN_LEN: usize = 70;

/// The most lines pasted elements may have.
pub const ELEMENT_MAX_LINES: usize = 3;

#[derive(Clone, Copy, PartialEq, Eq, Structural)]
pub enum AddSatSel {
    NoradID,
    TLEBox,
}

pub struct AddSatState {
    pub selected: AddSatSel,
    pub text: String,
    pub editing: bool,
}

/// The field's text after `key` is typed.
pub open spec fn typed_text(selected: AddSatSel, text: Seq<char>, key: Key) -> Seq<char> {
    match key {
        Key::Char(x) => match selected {
            AddSatSel::TLEBox => text.push(x),
            AddSatSel::NoradID => if text.len() < NORAD_ID_MAX_LEN && (is_digit(x) || x == '.') {
                text.push(x)
            } else {
                text
            },
        },
        _ => text,
    }
}

/// A line without the carriage return of a `\r\n` ending.
pub open spec fn strip_cr(line: Seq<char>) -> Seq<char> {
    if line.len() > 0 && line.last() == '\r' {
        line.drop_last()
    } else {
        line
    }
}

/// The lines of `s` after the partial line `current`: split at `\n`, a
/// `\r` before it dropped, no empty line after a final `\n`.
pub open spec fn lines_after(s: Seq<char>, current: Seq<char>) -> Seq<Seq<char>>
    decreases s.len(),
{
    if s.len() == 0 {
        if current.len() == 0 {
            Seq::empty()
        } else {
            seq![current]
        }
    } else if s[0] == '\n' {
        seq![strip_cr(current)] + lines_after(s.drop_first(), Seq::empty())
    } else {
        lines_after(s.drop_first(), current.push(s[0]))
    }
}

pub open spec fn text_lines(s: Seq<char>) -> Seq<Seq<char>> {
    lines_after(s, Seq::empty())
}

/// Clipboard text is taken as element sets when it has one to three lines and
/// each line has at least `ELEMENT_LINE_MIN_LEN` characters.
pub open spec fn pasteable(s: Seq<char>) -> bool {
    let l = text_lines(s);
    &&& 1 <= l.len() <= ELEMENT_MAX_LINES
    &&& forall|i: int| 0 <= i < l.len() ==> #[trigger] l[i].len() >= ELEMENT_LINE_MIN_LEN
}

/// The catalog number a field holds: one or more digits whose value fits.
pub open spec fn catalog_number(s: Seq<char>) -> Option<u64> {
    if s.len() > 0 && (forall|i: int| 0 <= i < s.len() ==> is_digit(#[trigger] s[i]))
        && digits_value(s) <= u64::MAX {
        Some(digits_value(s) as u64)
    } else {
        None
    }
}

/// Whether clipboard text passes for element sets, reading it line by line.
pub fn is_pasteable(s: &str) -> (r: bool)
    ensures
        r == pasteable(s@),
{
    let n = s.unicode_len();
    let ghost mut done: Seq<Seq<char>> = Seq::empty();
    let ghost mut cur: Seq<char> = Seq::empty();
    let mut count: usize = 0;
    let mut cur_len: usize = 0;
    let mut last_cr = false;
    let mut all_long = true;
    let mut i: usize = 0;
    proof {
        assert(s@.skip(0) =~= s@);
        assert(done + lines_after(s@.skip(0), cur) =~= text_lines(s@));
    }
    while i < n
        invariant
            i <= n,
            n == s@.len(),
            done + lines_after(s@.skip(i as int), cur) == text_lines(s@),
            count == done.len(),
            count + cur_len <= i,
            cur_len == cur.len(),
            last_cr == (cur.len() > 0 && cur.last() == '\r'),
            all_long <==> (forall|j: int| 0 <= j < done.len() ==> #[trigger] done[j].len() >= ELEMENT_LINE_MIN_LEN),
        decreases n - i,
    {
        let c = s.get_char(i);
        proof {
            assert(s@.skip(i as int).drop_first() =~= s@.skip(i + 1));
            assert(s@.skip(i as int)[0] == c);
        }
        if c == '\n' {
            let len: usize = if last_cr { cur_len - 1 } else { cur_len };
            let ghost old_done = done;
            let ghost was_long = all_long;
            proof {
                let l = strip_cr(cur);
                assert(l.len() == len);
                assert(old_done + lines_after(s@.skip(i as int), cur) =~= old_done.push(l) + lines_after(
                    s@.skip(i + 1),
                    Seq::empty(),
                ));
                done = old_done.push(l);
                cur = Seq::empty();
                assert forall|j: int| 0 <= j < old_done.len() implies #[trigger] done[j] == old_done[j] by {}
                assert(done[old_done.len() as int] == l);
            }
            if len < ELEMENT_LINE_MIN_LEN {
                all_long = false;
            }
            proof {
                if all_long {
                    assert forall|j: int| 0 <= j < done.len() implies #[trigger] done[j].len() >= ELEMENT_LINE_MIN_LEN by {
                        if j < old_done.len() {
                            assert(done[j] == old_done[j]);
                        }
                    }
                } else if !was_long {
                    let j = choose|j: int| 0 <= j < old_done.len() && !(#[trigger] old_done[j].len() >= ELEMENT_LINE_MIN_LEN);
                    assert(done[j] == old_done[j]);
                } else {
                    assert(done[old_done.len() as int].len() < ELEMENT_LINE_MIN_LEN);
                }
            }
            count = count + 1;
            cur_len = 0;
            last_cr = false;
        } else {
            proof {
                cur = cur.push(c);
            }
            cur_len = cur_len + 1;
            last_cr = c == '\r';
        }
        i = i + 1;
    }
    let total: usize = if cur_len > 0 { count + 1 } else { count };
    let long = all_long && (cur_len == 0 || cur_len >= ELEMENT_LINE_MIN_LEN);
    proof {
        assert(s@.skip(n as int) =~= Seq::<char>::empty());
        let l = text_lines(s@);
        if cur.len() == 0 {
            assert(l =~= done);
        } else {
            assert(l =~= done.push(cur));
            assert forall|j: int| 0 <= j < done.len() implies #[trigger] l[j] == done[j] by {}
        }
        assert(l.len() == total);
        if long {
            assert forall|j: int| 0 <= j < l.len() implies #[trigger] l[j].len() >= ELEMENT_LINE_MIN_LEN by {
                if j < done.len() {
                    assert(l[j] == done[j]);
                }
            }
        } else if !all_long {
            let j = choose|j: int| 0 <= j < done.len() && !(#[trigger] done[j].len() >= ELEMENT_LINE_MIN_LEN);
            assert(l[j] == done[j]);
        } else {
            assert(l[done.len() as int] == cur);
        }
    }
    total >= 1 && total <= ELEMENT_MAX_LINES && long
}

/// Reads a catalog number.
pub fn parse_catalog_number(s: &str) -> (r: Option<u64>)
    ensures
        r == catalog_number(s@),
{
    let n = s.unicode_len();
    if n == 0 {
        return None;
    }
    let mut acc: u64 = 0;
    let mut i: usize = 0;
    while i < n
        invariant
            i <= n,
            n == s@.len(),
            forall|j: int| 0 <= j < i ==> is_digit(#[trigger] s@[j]),
            acc == digits_value(s@.take(i as int)),
        decreases n - i,
    {
        let c = s.get_char(i);
        if !('0' <= c && c <= '9') {
            assert(!is_digit(s@[i as int]));
            return None;
        }
        let d: u64 = (c as u32 - 48) as u64;
        proof {
            assert(s@.take(i + 1).drop_last() =~= s@.take(i as int));
        }
        if acc > (u64::MAX - d) / 10 {
            proof {
                assert(digits_value(s@.take(i + 1)) > u64::MAX);
                lemma_digits_prefix_le(s@, i + 1);
            }
            return None;
        }
        acc = acc * 10 + d;
        i = i + 1;
    }
    proof {
        assert(s@.take(n as int) =~= s@);
    }
    Some(acc)
}

/// A run of digits is worth at least any prefix of it.
proof fn lemma_digits_prefix_le(s: Seq<char>, k: int)
    requires
        0 <= k <= s.len(),
    ensures
        digits_value(s.take(k)) <= digits_value(s),
    decreases s.len() - k,
{
    if k < s.len() {
        lemma_digits_prefix_le(s, k + 1);
        assert(s.take(k + 1).drop_last() =~= s.take(k));
    } else {
        assert(s.take(k) =~= s);
    }
}

impl AddSatState {
    /// The field holds text only while it is edited.
    pub open spec fn inv(&self) -> bool {
        self.text@.len() > 0 ==> self.editing
    }

    /// The catalog number field, empty and not edited.
    pub fn new() -> (r: AddSatState)
        ensures
            r.inv(),
            r.selected == AddSatSel::NoradID,
            r.text@.len() == 0,
            !r.editing,
    {
        AddSatState { selected: AddSatSel::NoradID, text: String::new(), editing: false }
    }

    /// Switches editing on or off; either way the field is emptied.
    pub fn toggle_editing(&mut self)
        ensures
            final(self).inv(),
            final(self).editing == !old(self).editing,
            final(self).text@.len() == 0,
            final(self).selected == old(self).selected,
    {
        self.editing = !self.editing;
        self.text = String::new();
    }

    /// Switches between the two fields.
    pub fn change_selection(&mut self)
        requires
            old(self).inv(),
        ensures
            final(self).inv(),
            final(self).selected == (if old(self).selected == AddSatSel::NoradID {
                AddSatSel::TLEBox
            } else {
                AddSatSel::NoradID
            }),
            final(self).text == old(self).text,
            final(self).editing == old(self).editing,
    {
        self.selected = match self.selected {
            AddSatSel::NoradID => AddSatSel::TLEBox,
            AddSatSel::TLEBox => AddSatSel::NoradID,
        };
    }

    /// Typing changes the field only while it is edited.
    pub fn letter_typed(&mut self, key: Key)
        requires
            old(self).inv(),
        ensures
            final(self).inv(),
            final(self).selected == old(self).selected,
            final(self).editing == old(self).editing,
            final(self).text@ == if old(self).editing {
                typed_text(old(self).selected, old(self).text@, key)
            } else {
                old(self).text@
            },
    {
        if !self.editing {
            return;
        }
        if let Key::Char(x) = key {
            match self.selected {
                AddSatSel::TLEBox => self.text.push(x),
                AddSatSel::NoradID => {
                    if self.text.as_str().unicode_len() < NORAD_ID_MAX_LEN && (('0' <= x && x <= '9')
                        || x == '.') {
                        self.text.push(x);
                    }
                },
            }
        }
    }

    /// Backspace drops the last character while the field is edited.
    pub fn backspace(&mut self)
        requires
            old(self).inv(),
        ensures
            final(self).inv(),
            final(self).selected == old(self).selected,
            final(self).editing == old(self).editing,
            final(self).text@ == if old(self).editing && old(self).text@.len() > 0 {
                old(self).text@.drop_last()
            } else {
                old(self).text@
            },
    {
        if self.editing {
            self.text.pop();
        }
    }
}

} // verus!
