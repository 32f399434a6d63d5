//! A single-line editable text field: its text, a cursor counted in
//! characters, and the horizontal scroll that keeps the cursor visible.
//! The editing itself is done by `tui_input`.

use vstd::prelude::*;
use vstd::string::StrSliceExecFns;
use tui_input::{Input, InputRequest as R};

verus! {

/// An edit applied to a field.
#[derive(Clone, Copy, Debug, PartialEq, Eq, Structural)]
pub enum EditKey {
    Insert(char),
    Backspace,
    Delete,
    Left,
    Right,
    Home,
    End,
    PrevWord,
    NextWord,
    DeletePrevWord,
    DeleteNextWord,
    DeleteLine,
    DeleteTillEnd,
}

/// Text and cursor after `tui_input` applies an edit to a field holding
/// `text` with its cursor at `cursor`.
pub uninterp spec fn input_edit_of(text: Seq<char>, cursor: nat, key: EditKey) -> (Seq<char>, nat);

/// Display width of the text before the cursor.
pub uninterp spec fn visual_cursor_of(text: Seq<char>, cursor: nat) -> nat;

/// Display columns scrolled out on the left when `width` columns are visible.
pub uninterp spec fn visual_scroll_of(text: Seq<char>, cursor: nat, width: nat) -> nat;

/// Relies on `tui_input::Input::handle`: inserting a character places it at
/// the cursor and moves the cursor past it; `GoToStart` and `GoToEnd` move the
/// cursor only; moving left or right never changes the text; deleting before
/// the first or after the last character changes nothing; word moves keep
/// the text; deleting the line empties it; deleting to the end keeps what is
/// before the cursor; the cursor never passes the end of the text.
#[verifier::external_body]
fn input_edit(text: &String, cursor: usize, key: EditKey) -> (r: (String, usize))
    requires
        cursor <= text@.len(),
        text@.len() < usize::MAX,
    ensures
        (r.0@, r.1 as nat) == input_edit_of(text@, cursor as nat, key),
        r.1 <= r.0@.len(),
        key matches EditKey::Insert(c) ==> r.0@ == text@.take(cursor as int) + seq![c] + text@.skip(
            cursor as int,
        ) && r.1 == cursor + 1,
        key is Home ==> r.0@ == text@ && r.1 == 0,
        key is End ==> r.0@ == text@ && r.1 == text@.len(),
        key is Left || key is Right || key is PrevWord || key is NextWord ==> r.0@ == text@,
        key is DeleteLine ==> r.0@.len() == 0 && r.1 == 0,
        key is DeleteTillEnd ==> r.0@ == text@.take(cursor as int) && r.1 == cursor,
        key is Backspace && cursor == 0 ==> r.0@ == text@ && r.1 == 0,
        key is Delete && cursor == text@.len() ==> r.0@ == text@ && r.1 == cursor,
{
    let mut input = Input::new(text.clone()).with_cursor(cursor);
    input.handle(match key {
        EditKey::Insert(c) => R::InsertChar(c),
        EditKey::Backspace => R::DeletePrevChar, EditKey::Delete => R::DeleteNextChar,
        EditKey::Left => R::GoToPrevChar, EditKey::Right => R::GoToNextChar,
        EditKey::Home => R::GoToStart, EditKey::End => R::GoToEnd,
        EditKey::PrevWord => R::GoToPrevWord, EditKey::NextWord => R::GoToNextWord,
        EditKey::DeletePrevWord => R::DeletePrevWord, EditKey::DeleteNextWord => R::DeleteNextWord,
        EditKey::DeleteLine => R::DeleteLine, EditKey::DeleteTillEnd => R::DeleteTillEnd,
    });
    (input.value().to_string(), input.cursor())
}

/// Relies on `tui_input::Input::visual_cursor`: the display width before
/// the cursor, a sum over no characters when the cursor is at the start.
#[verifier::external_body]
fn input_visual_cursor(text: &String, cursor: usize) -> (r: usize)
    requires
        cursor <= text@.len(),
    ensures
        r == visual_cursor_of(text@, cursor as nat),
        cursor == 0 ==> r == 0,
{
    Input::new(text.clone()).with_cursor(cursor).visual_cursor()
}

/// Relies on `tui_input::Input::visual_scroll`: no scrolling while the
/// cursor's display column fits in the visible width, as it does at the
/// start of the text; otherwise whole
/// characters are scrolled out until the cursor fits, or all of them when
/// the text runs out first.
#[verifier::external_body]
fn input_visual_scroll(text: &String, cursor: usize, width: usize) -> (r: usize)
    requires
        cursor <= text@.len(),
    ensures
        r == visual_scroll_of(text@, cursor as nat, width as nat),
        visual_cursor_of(text@, cursor as nat) <= width ==> r == 0,
        cursor == 0 ==> r == 0,
        visual_cursor_of(text@, cursor as nat) <= r + width || r == visual_cursor_of(
            text@,
            text@.len(),
        ),
{
    Input::new(text.clone()).with_cursor(cursor).visual_scroll(width)
}

/// An editable line of text with a cursor.
pub struct FieldBuffer {
    text: String,
    cursor: usize,
}

impl FieldBuffer {
    #[verifier::type_invariant]
    spec fn cursor_in_text(&self) -> bool {
        self.cursor <= self.text@.len()
    }

    /// The characters of the field.
    pub closed spec fn text(&self) -> Seq<char> {
        self.text@
    }

    /// The cursor, as a count of characters before it.
    pub closed spec fn cursor_spec(&self) -> nat {
        self.cursor as nat
    }

    /// The field is empty with its cursor at the start.
    pub open spec fn is_empty(&self) -> bool {
        self.text().len() == 0 && self.cursor_spec() == 0
    }

    /// `b` is what `a` becomes under the edit `key`.
    pub open spec fn edited(a: FieldBuffer, b: FieldBuffer, key: EditKey) -> bool {
        if a.text().len() < usize::MAX - 1 {
            &&& (b.text(), b.cursor_spec()) == input_edit_of(a.text(), a.cursor_spec(), key)
            &&& key matches EditKey::Insert(c) ==> b.text() == a.text().take(a.cursor_spec() as int)
                + seq![c] + a.text().skip(a.cursor_spec() as int) && b.cursor_spec() == a.cursor_spec()
                + 1
        } else {
            b == a
        }
    }

    pub fn new() -> (r: FieldBuffer)
        ensures
            r.is_empty(),
    {
        FieldBuffer { text: String::new(), cursor: 0 }
    }

    pub fn value(&self) -> (r: &String)
        ensures
            r@ == self.text(),
    {
        &self.text
    }

    pub fn cursor(&self) -> (r: usize)
        ensures
            r == self.cursor_spec(),
            r <= self.text().len(),
    {
        proof {
            use_type_invariant(self);
        }
        self.cursor
    }

    /// Empties the field and puts the cursor back at the start.
    pub fn reset(&mut self)
        ensures
            final(self).is_empty(),
    {
        *self = FieldBuffer { text: String::new(), cursor: 0 };
    }

    /// Applies one edit. A field already holding `usize::MAX - 1` characters
    /// is left as it is.
    pub fn edit(&mut self, key: EditKey)
        ensures
            FieldBuffer::edited(*old(self), *final(self), key),
    {
        proof {
            use_type_invariant(&*self);
        }
        let len = self.text.as_str().unicode_len();
        if len < usize::MAX - 1 {
            let (text, cursor) = input_edit(&self.text, self.cursor, key);
            *self = FieldBuffer { text, cursor };
        }
    }

    /// Display width of the text before the cursor.
    pub fn visual_cursor(&self) -> (r: usize)
        ensures
            r == visual_cursor_of(self.text(), self.cursor_spec()),
            self.cursor_spec() == 0 ==> r == 0,
    {
        proof {
            use_type_invariant(self);
        }
        input_visual_cursor(&self.text, self.cursor)
    }

    /// Columns scrolled out on the left so that the cursor shows within `width`.
    pub fn visual_scroll(&self, width: usize) -> (r: usize)
        ensures
            r == visual_scroll_of(self.text(), self.cursor_spec(), width as nat),
            visual_cursor_of(self.text(), self.cursor_spec()) <= width ==> r == 0,
            self.cursor_spec() == 0 ==> r == 0,
            visual_cursor_of(self.text(), self.cursor_spec()) <= r + width || r == visual_cursor_of(
                self.text(),
                self.text().len(),
            ),
    {
        proof {
            use_type_invariant(self);
        }
        input_visual_scroll(&self.text, self.cursor, width)
    }
}

} // verus!
