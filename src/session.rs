//! The interactive session: the current budget and its payments, the
//! viewport over the payment list, and the modal state machine that turns
//! key presses into edits, mode changes and requests to the store.
//!
//! Every way out of a dialog empties that dialog's fields, whether it was
//! cancelled or submitted. A field whose text does not read as a number
//! fails the submission and leaves the dialog open as it was.

use vstd::prelude::*;
use vstd::string::StringExecFns;
use crate::field::{EditKey, FieldBuffer};
use crate::number::{amount_of, integer_of, parse_amount, parse_integer};

verus! {

/// Which dialog has the keyboard.
#[derive(Clone, Copy, Debug, PartialEq, Eq, Structural)]
pub enum InputMode {
    Normal,
    Editing,
    Deleting,
    NewBudget,
}

/// Which field of the open dialog receives typed text.
#[derive(Clone, Copy, Debug, PartialEq, Eq, Structural)]
pub enum InputLocation {
    Type,
    Amount,
    Budget,
    Month,
}

/// A budget ceiling for a month; `amount` is in cents.
#[derive(Clone, Debug)]
pub struct Budget {
    pub id: i64,
    pub amount: i64,
    pub month: String,
}

/// A payment booked against a budget; `amount` is in cents.
#[derive(Clone, Debug)]
pub struct Payment {
    pub id: i64,
    pub amount: i64,
    pub budget_id: i64,
    pub kind: String,
    pub day_of: String,
}

/// A payment to be stored.
#[derive(Clone, Debug)]
pub struct NewPayment {
    pub amount: i64,
    pub budget_id: i64,
    pub kind: String,
}

/// A budget to be stored.
#[derive(Clone, Debug)]
pub struct NewBudget {
    pub amount: i64,
    pub month: String,
}

/// Why a submission failed.
#[derive(Clone, Copy, Debug, PartialEq, Eq, Structural)]
pub enum SessionError {
    /// A field's text does not read as the number it must hold.
    ParseFailure,
}

/// A key as the session sees it.
#[derive(Clone, Copy, Debug, PartialEq, Eq, Structural)]
pub enum Key {
    Char(char),
    Enter,
    Esc,
    Tab,
    Backspace,
    Delete,
    Left,
    Right,
    Home,
    End,
    WordLeft,
    WordRight,
    DeleteWordBack,
    DeleteWordForward,
    DeleteLine,
    DeleteToEnd,
    Other,
}

/// What the caller must do after a key has been handled. After a store
/// request the caller reloads the snapshot with `App::load`.
#[derive(Clone, Debug)]
pub enum Action {
    Nothing,
    Quit,
    InsertPayment(NewPayment),
    DeletePayment(i64),
    InsertBudget(NewBudget),
    Failed(SessionError),
}

/// The edit a key makes in a focused field, if any.
pub open spec fn edit_of(key: Key) -> Option<EditKey> {
    match key {
        Key::Char(c) => Some(EditKey::Insert(c)),
        Key::Backspace => Some(EditKey::Backspace),
        Key::Delete => Some(EditKey::Delete),
        Key::Left => Some(EditKey::Left),
        Key::Right => Some(EditKey::Right),
        Key::Home => Some(EditKey::Home),
        Key::End => Some(EditKey::End),
        Key::WordLeft => Some(EditKey::PrevWord),
        Key::WordRight => Some(EditKey::NextWord),
        Key::DeleteWordBack => Some(EditKey::DeletePrevWord),
        Key::DeleteWordForward => Some(EditKey::DeleteNextWord),
        Key::DeleteLine => Some(EditKey::DeleteLine),
        Key::DeleteToEnd => Some(EditKey::DeleteTillEnd),
        _ => None,
    }
}

fn edit_key(key: Key) -> (r: Option<EditKey>)
    ensures
        r == edit_of(key),
{
    match key {
        Key::Char(c) => Some(EditKey::Insert(c)),
        Key::Backspace => Some(EditKey::Backspace),
        Key::Delete => Some(EditKey::Delete),
        Key::Left => Some(EditKey::Left),
        Key::Right => Some(EditKey::Right),
        Key::Home => Some(EditKey::Home),
        Key::End => Some(EditKey::End),
        Key::WordLeft => Some(EditKey::PrevWord),
        Key::WordRight => Some(EditKey::NextWord),
        Key::DeleteWordBack => Some(EditKey::DeletePrevWord),
        Key::DeleteWordForward => Some(EditKey::DeleteNextWord),
        Key::DeleteLine => Some(EditKey::DeleteLine),
        Key::DeleteToEnd => Some(EditKey::DeleteTillEnd),
        _ => None,
    }
}

/// `b` is `a` after the edit `key`, or `a` itself when `key` is no edit.
pub open spec fn edited_by(a: FieldBuffer, b: FieldBuffer, key: Key) -> bool {
    match edit_of(key) {
        Some(e) => FieldBuffer::edited(a, b, e),
        None => b == a,
    }
}

/// The largest offset the viewport may take over `n` payments.
pub open spec fn max_scroll(n: nat) -> nat {
    if n == 0 {
        0
    } else {
        (n - 1) as nat
    }
}

/// Offset after scrolling one row down over `n` payments.
pub open spec fn scroll_down_of(s: nat, n: nat) -> nat {
    if n == 0 {
        0
    } else if s + 1 <= n - 1 {
        s + 1
    } else {
        (n - 1) as nat
    }
}

/// Offset after scrolling one row up over `n` payments.
pub open spec fn scroll_up_of(s: nat, n: nat) -> nat {
    if n == 0 {
        0
    } else if s == 0 {
        0
    } else if s - 1 <= n - 1 {
        (s - 1) as nat
    } else {
        (n - 1) as nat
    }
}

/// The fields that may have focus in each mode.
pub open spec fn location_fits(mode: InputMode, location: InputLocation) -> bool {
    match mode {
        InputMode::Editing => location is Type || location is Amount,
        InputMode::NewBudget => location is Budget || location is Month,
        _ => true,
    }
}

/// `b` is `a` after the payment dialog was submitted, and `r` what is asked of the store.
pub open spec fn submitted_payment(a: App, b: App, r: Action) -> bool {
    match amount_of(a.payment_input.1.text()) {
        Some(v) => {
            &&& r matches Action::InsertPayment(p) && p.amount == v && p.budget_id
                == a.current_budget_id && p.kind@ == a.payment_input.0.text()
            &&& b.payment_input.0.is_empty()
            &&& b.payment_input.1.is_empty()
            &&& b == (App { payment_input: b.payment_input, mode: InputMode::Normal, ..a })
        },
        None => r == Action::Failed(SessionError::ParseFailure) && b == a,
    }
}

/// `b` is `a` after the deletion dialog was submitted.
pub open spec fn submitted_deletion(a: App, b: App, r: Action) -> bool {
    match integer_of(a.deletion_id.text()) {
        Some(id) => {
            &&& r == Action::DeletePayment(id as i64)
            &&& b.deletion_id.is_empty()
            &&& b == (App { deletion_id: b.deletion_id, mode: InputMode::Normal, ..a })
        },
        None => r == Action::Failed(SessionError::ParseFailure) && b == a,
    }
}

/// `b` is `a` after the new-budget dialog was submitted.
pub open spec fn submitted_budget(a: App, b: App, r: Action) -> bool {
    match amount_of(a.new_budget.0.text()) {
        Some(v) => {
            &&& r matches Action::InsertBudget(nb) && nb.amount == v && nb.month@
                == a.new_budget.1.text()
            &&& b.new_budget.0.is_empty()
            &&& b.new_budget.1.is_empty()
            &&& b == (App { new_budget: b.new_budget, mode: InputMode::Normal, ..a })
        },
        None => r == Action::Failed(SessionError::ParseFailure) && b == a,
    }
}

/// A key in the main view.
pub open spec fn normal_step(a: App, b: App, key: Key, r: Action) -> bool {
    if key == Key::Char('a') {
        b == a.switched(InputMode::Editing, InputLocation::Type) && r is Nothing
    } else if key == Key::Char('b') {
        b == a.switched(InputMode::NewBudget, InputLocation::Budget) && r is Nothing
    } else if key == Key::Delete {
        b == a.switched(InputMode::Deleting, a.location) && r is Nothing
    } else if key == Key::Char('q') {
        b == a && r is Quit
    } else if key == Key::Char('j') {
        b == a.scrolled(scroll_down_of(a.scroll as nat, a.payments@.len())) && r is Nothing
    } else if key == Key::Char('k') {
        b == a.scrolled(scroll_up_of(a.scroll as nat, a.payments@.len())) && r is Nothing
    } else {
        b == a && r is Nothing
    }
}

/// A key in the payment dialog.
pub open spec fn editing_step(a: App, b: App, key: Key, r: Action) -> bool {
    if key is Enter {
        submitted_payment(a, b, r)
    } else if key is Esc {
        &&& b.payment_input.0.is_empty()
        &&& b.payment_input.1.is_empty()
        &&& b == (App { payment_input: b.payment_input, mode: InputMode::Normal, ..a })
        &&& r is Nothing
    } else if key is Tab {
        &&& b == a.switched(
            InputMode::Editing,
            if a.location is Type {
                InputLocation::Amount
            } else {
                InputLocation::Type
            },
        )
        &&& r is Nothing
    } else if a.location is Type {
        &&& edited_by(a.payment_input.0, b.payment_input.0, key)
        &&& b == (App { payment_input: (b.payment_input.0, a.payment_input.1), ..a })
        &&& r is Nothing
    } else {
        &&& edited_by(a.payment_input.1, b.payment_input.1, key)
        &&& b == (App { payment_input: (a.payment_input.0, b.payment_input.1), ..a })
        &&& r is Nothing
    }
}

/// A key in the deletion dialog.
pub open spec fn deleting_step(a: App, b: App, key: Key, r: Action) -> bool {
    if key is Enter {
        submitted_deletion(a, b, r)
    } else if key is Esc {
        &&& b.deletion_id.is_empty()
        &&& b == (App { deletion_id: b.deletion_id, mode: InputMode::Normal, ..a })
        &&& r is Nothing
    } else {
        &&& edited_by(a.deletion_id, b.deletion_id, key)
        &&& b == (App { deletion_id: b.deletion_id, ..a })
        &&& r is Nothing
    }
}

/// A key in the new-budget dialog.
pub open spec fn new_budget_step(a: App, b: App, key: Key, r: Action) -> bool {
    if key is Enter {
        submitted_budget(a, b, r)
    } else if key is Esc {
        &&& b.new_budget.0.is_empty()
        &&& b.new_budget.1.is_empty()
        &&& b == (App { new_budget: b.new_budget, mode: InputMode::Normal, ..a })
        &&& r is Nothing
    } else if key is Tab {
        &&& b == a.switched(
            InputMode::NewBudget,
            if a.location is Budget {
                InputLocation::Month
            } else {
                InputLocation::Budget
            },
        )
        &&& r is Nothing
    } else if a.location is Budget {
        &&& edited_by(a.new_budget.0, b.new_budget.0, key)
        &&& b == (App { new_budget: (b.new_budget.0, a.new_budget.1), ..a })
        &&& r is Nothing
    } else {
        &&& edited_by(a.new_budget.1, b.new_budget.1, key)
        &&& b == (App { new_budget: (a.new_budget.0, b.new_budget.1), ..a })
        &&& r is Nothing
    }
}

/// One key event: a released key changes nothing; a pressed key is handled
/// by the open dialog.
pub open spec fn step(a: App, b: App, key: Key, release: bool, r: Action) -> bool {
    if release {
        b == a && r is Nothing
    } else {
        match a.mode {
            InputMode::Normal => normal_step(a, b, key, r),
            InputMode::Editing => editing_step(a, b, key, r),
            InputMode::Deleting => deleting_step(a, b, key, r),
            InputMode::NewBudget => new_budget_step(a, b, key, r),
        }
    }
}

/// The session: snapshot, viewport, dialogs and their fields.
pub struct App {
    pub scroll: usize,
    pub current_budget_id: i64,
    pub payments: Vec<Payment>,
    pub budget: Option<Budget>,
    pub payment_input: (FieldBuffer, FieldBuffer),
    pub deletion_id: FieldBuffer,
    pub mode: InputMode,
    pub location: InputLocation,
    pub new_budget: (FieldBuffer, FieldBuffer),
}

impl App {
    /// The viewport lies over the list and the focus suits the mode.
    pub open spec fn wf(&self) -> bool {
        &&& self.scroll <= max_scroll(self.payments@.len())
        &&& location_fits(self.mode, self.location)
    }

    pub open spec fn switched(self, mode: InputMode, location: InputLocation) -> App {
        App { mode, location, ..self }
    }

    pub open spec fn scrolled(self, scroll: nat) -> App {
        App { scroll: scroll as usize, ..self }
    }

    /// The session once the snapshot is replaced by `budget` and `payments`.
    pub open spec fn reloaded(self, budget: Option<Budget>, payments: Vec<Payment>) -> App {
        App {
            budget,
            payments,
            scroll: if self.scroll <= max_scroll(payments@.len()) {
                self.scroll
            } else {
                max_scroll(payments@.len()) as usize
            },
            ..self
        }
    }

    /// A fresh session on budget `id`: nothing loaded, nothing typed.
    pub fn new(id: i64) -> (r: App)
        ensures
            r.wf(),
            r.scroll == 0,
            r.current_budget_id == id,
            r.payments@.len() == 0,
            r.budget is None,
            r.mode == InputMode::Normal,
            r.location == InputLocation::Type,
            r.payment_input.0.is_empty(),
            r.payment_input.1.is_empty(),
            r.deletion_id.is_empty(),
            r.new_budget.0.is_empty(),
            r.new_budget.1.is_empty(),
    {
        App {
            scroll: 0,
            current_budget_id: id,
            payments: Vec::new(),
            budget: None,
            payment_input: (FieldBuffer::new(), FieldBuffer::new()),
            deletion_id: FieldBuffer::new(),
            mode: InputMode::Normal,
            location: InputLocation::Type,
            new_budget: (FieldBuffer::new(), FieldBuffer::new()),
        }
    }

    /// Replaces the snapshot wholesale with what the store returned: the
    /// budget (absent when none has the id) and its payments. The viewport
    /// is pulled back onto the new list.
    pub fn load(&mut self, budget: Option<Budget>, payments: Vec<Payment>)
        requires
            old(self).wf(),
        ensures
            final(self).wf(),
            *final(self) == old(self).reloaded(budget, payments),
    {
        let n = payments.len();
        self.budget = budget;
        self.payments = payments;
        if n == 0 {
            self.scroll = 0;
        } else if self.scroll > n - 1 {
            self.scroll = n - 1;
        }
    }

    /// Moves the viewport one row down, stopping at the last payment.
    pub fn scroll_down(&mut self)
        requires
            old(self).wf(),
        ensures
            final(self).wf(),
            *final(self) == old(self).scrolled(
                scroll_down_of(old(self).scroll as nat, old(self).payments@.len()),
            ),
    {
        let n = self.payments.len();
        if n == 0 {
            self.scroll = 0;
        } else if self.scroll < n - 1 {
            self.scroll = self.scroll + 1;
        } else {
            self.scroll = n - 1;
        }
    }

    /// Moves the viewport one row up, stopping at the first payment.
    pub fn scroll_up(&mut self)
        requires
            old(self).wf(),
        ensures
            final(self).wf(),
            *final(self) == old(self).scrolled(
                scroll_up_of(old(self).scroll as nat, old(self).payments@.len()),
            ),
    {
        let n = self.payments.len();
        if n == 0 {
            self.scroll = 0;
        } else if self.scroll == 0 {
            self.scroll = 0;
        } else if self.scroll - 1 <= n - 1 {
            self.scroll = self.scroll - 1;
        } else {
            self.scroll = n - 1;
        }
    }

    /// Reads the payment dialog into a payment to store and empties it. An
    /// amount that does not read as money fails and changes nothing.
    pub fn add_payment(&mut self) -> (r: Result<NewPayment, SessionError>)
        ensures
            match amount_of(old(self).payment_input.1.text()) {
                Some(v) => {
                    &&& r matches Ok(p) && p.amount == v && p.budget_id
                        == old(self).current_budget_id && p.kind@ == old(self).payment_input.0.text()
                    &&& final(self).payment_input.0.is_empty()
                    &&& final(self).payment_input.1.is_empty()
                    &&& *final(self) == (App { payment_input: final(self).payment_input, ..*old(self) })
                },
                None => r == Err::<NewPayment, SessionError>(SessionError::ParseFailure)
                    && *final(self) == *old(self),
            },
    {
        match parse_amount(self.payment_input.1.value()) {
            None => Err(SessionError::ParseFailure),
            Some(amount) => {
                let kind = self.payment_input.0.value().clone();
                self.payment_input = (FieldBuffer::new(), FieldBuffer::new());
                Ok(NewPayment { amount, budget_id: self.current_budget_id, kind })
            },
        }
    }

    /// Reads the new-budget dialog into a budget to store and empties it. An
    /// amount that does not read as money fails and changes nothing.
    pub fn add_budget(&mut self) -> (r: Result<NewBudget, SessionError>)
        ensures
            match amount_of(old(self).new_budget.0.text()) {
                Some(v) => {
                    &&& r matches Ok(nb) && nb.amount == v && nb.month@ == old(self).new_budget.1.text()
                    &&& final(self).new_budget.0.is_empty()
                    &&& final(self).new_budget.1.is_empty()
                    &&& *final(self) == (App { new_budget: final(self).new_budget, ..*old(self) })
                },
                None => r == Err::<NewBudget, SessionError>(SessionError::ParseFailure)
                    && *final(self) == *old(self),
            },
    {
        match parse_amount(self.new_budget.0.value()) {
            None => Err(SessionError::ParseFailure),
            Some(amount) => {
                let month = self.new_budget.1.value().clone();
                self.new_budget = (FieldBuffer::new(), FieldBuffer::new());
                Ok(NewBudget { amount, month })
            },
        }
    }

    /// Reads the deletion dialog into the id of the payment to delete and
    /// empties it. An id that does not read as an integer fails and changes
    /// nothing.
    pub fn delete(&mut self) -> (r: Result<i64, SessionError>)
        ensures
            match integer_of(old(self).deletion_id.text()) {
                Some(id) => {
                    &&& r == Ok::<i64, SessionError>(id as i64)
                    &&& final(self).deletion_id.is_empty()
                    &&& *final(self) == (App { deletion_id: final(self).deletion_id, ..*old(self) })
                },
                None => r == Err::<i64, SessionError>(SessionError::ParseFailure)
                    && *final(self) == *old(self),
            },
    {
        match parse_integer(self.deletion_id.value()) {
            None => Err(SessionError::ParseFailure),
            Some(id) => {
                self.deletion_id = FieldBuffer::new();
                Ok(id)
            },
        }
    }

    /// Handles one key event and says what the caller must do next.
    pub fn handle_key(&mut self, key: Key, release: bool) -> (r: Action)
        requires
            old(self).wf(),
        ensures
            final(self).wf(),
            step(*old(self), *final(self), key, release, r),
    {
        if release {
            return Action::Nothing;
        }
        match self.mode {
            InputMode::Normal => {
                if key == Key::Char('a') {
                    self.mode = InputMode::Editing;
                    self.location = InputLocation::Type;
                } else if key == Key::Char('b') {
                    self.mode = InputMode::NewBudget;
                    self.location = InputLocation::Budget;
                } else if key == Key::Delete {
                    self.mode = InputMode::Deleting;
                } else if key == Key::Char('q') {
                    return Action::Quit;
                } else if key == Key::Char('j') {
                    self.scroll_down();
                } else if key == Key::Char('k') {
                    self.scroll_up();
                }
                Action::Nothing
            },
            InputMode::Editing => {
                if key == Key::Enter {
                    match self.add_payment() {
                        Ok(p) => {
                            self.mode = InputMode::Normal;
                            Action::InsertPayment(p)
                        },
                        Err(e) => Action::Failed(e),
                    }
                } else if key == Key::Esc {
                    self.payment_input = (FieldBuffer::new(), FieldBuffer::new());
                    self.mode = InputMode::Normal;
                    Action::Nothing
                } else if key == Key::Tab {
                    self.location = match self.location {
                        InputLocation::Type => InputLocation::Amount,
                        _ => InputLocation::Type,
                    };
                    Action::Nothing
                } else {
                    if let Some(e) = edit_key(key) {
                        match self.location {
                            InputLocation::Type => self.payment_input.0.edit(e),
                            _ => self.payment_input.1.edit(e),
                        }
                    }
                    Action::Nothing
                }
            },
            InputMode::Deleting => {
                if key == Key::Enter {
                    match self.delete() {
                        Ok(id) => {
                            self.mode = InputMode::Normal;
                            Action::DeletePayment(id)
                        },
                        Err(e) => Action::Failed(e),
                    }
                } else if key == Key::Esc {
                    self.deletion_id = FieldBuffer::new();
                    self.mode = InputMode::Normal;
                    Action::Nothing
                } else {
                    if let Some(e) = edit_key(key) {
                        self.deletion_id.edit(e);
                    }
                    Action::Nothing
                }
            },
            InputMode::NewBudget => {
                if key == Key::Enter {
                    match self.add_budget() {
                        Ok(nb) => {
                            self.mode = InputMode::Normal;
                            Action::InsertBudget(nb)
                        },
                        Err(e) => Action::Failed(e),
                    }
                } else if key == Key::Esc {
                    self.new_budget = (FieldBuffer::new(), FieldBuffer::new());
                    self.mode = InputMode::Normal;
                    Action::Nothing
                } else if key == Key::Tab {
                    self.location = match self.location {
                        InputLocation::Budget => InputLocation::Month,
                        _ => InputLocation::Budget,
                    };
                    Action::Nothing
                } else {
                    if let Some(e) = edit_key(key) {
                        match self.location {
                            InputLocation::Budget => self.new_budget.0.edit(e),
                            _ => self.new_budget.1.edit(e),
                        }
                    }
                    Action::Nothing
                }
            },
        }
    }

    /// The budget to create when a session starts and finds none loaded: a
    /// ceiling of 1000.00 for month "202501".
    pub fn bootstrap_budget(&self) -> (r: Option<NewBudget>)
        ensures
            r is Some <==> self.budget is None,
            r matches Some(nb) ==> nb.amount == 100000 && nb.month@ == seq!['2', '0', '2', '5', '0', '1'],
    {
        match self.budget {
            Some(_) => None,
            None => {
                let month = String::from_str("202501");
                proof {
                    reveal_strlit("202501");
                }
                Some(NewBudget { amount: 100000, month })
            },
        }
    }

    /// The scrollbar: its position and its content length.
    pub fn scrollbar(&self) -> (r: (usize, usize))
        ensures
            r.0 == self.scroll,
            r.1 == self.payments@.len(),
    {
        (self.scroll, self.payments.len())
    }
}

/// The offset after a run of scrolls over `n` payments: `true` scrolls
/// down, `false` up.
pub open spec fn scroll_after(s: nat, n: nat, moves: Seq<bool>) -> nat
    decreases moves.len(),
{
    if moves.len() == 0 {
        s
    } else {
        let next = if moves[0] {
            scroll_down_of(s, n)
        } else {
            scroll_up_of(s, n)
        };
        scroll_after(next, n, moves.skip(1))
    }
}

/// Any run of scrolls down and up keeps the offset between zero and the
/// last payment; over an empty list the offset stays zero.
pub proof fn lemma_scroll_stays_on_list(s: nat, n: nat, moves: Seq<bool>)
    requires
        s <= max_scroll(n),
    ensures
        scroll_after(s, n, moves) <= max_scroll(n),
        n == 0 ==> scroll_after(s, n, moves) == 0,
    decreases moves.len(),
{
    if moves.len() > 0 {
        let next = if moves[0] {
            scroll_down_of(s, n)
        } else {
            scroll_up_of(s, n)
        };
        lemma_scroll_stays_on_list(next, n, moves.skip(1));
    }
}

/// In the payment dialog, Tab moves the focus to the other of its two
/// fields, never to a field of another dialog, and a second Tab moves it
/// back.
pub proof fn lemma_tab_alternates(a: App, b: App, c: App, r1: Action, r2: Action)
    requires
        a.wf(),
        a.mode is Editing,
        step(a, b, Key::Tab, false, r1),
        step(b, c, Key::Tab, false, r2),
    ensures
        b.mode is Editing,
        b.location is Type || b.location is Amount,
        b.location != a.location,
        c.location == a.location,
        c == a,
{
}

/// Submitting the new-budget dialog with an amount that reads as money, then
/// loading the budget the store holds for that request with no payments,
/// gives a snapshot whose budget has exactly the typed amount and month and
/// whose payment list is empty.
pub proof fn lemma_budget_round_trip(
    a: App,
    b: App,
    r: Action,
    stored: Budget,
    payments: Vec<Payment>,
)
    requires
        a.wf(),
        a.mode is NewBudget,
        amount_of(a.new_budget.0.text()) is Some,
        step(a, b, Key::Enter, false, r),
        r matches Action::InsertBudget(nb) ==> stored.amount == nb.amount && stored.month@ == nb.month@,
        payments@.len() == 0,
    ensures
        r is InsertBudget,
        b.reloaded(Some(stored), payments).budget == Some(stored),
        stored.amount == amount_of(a.new_budget.0.text()).unwrap(),
        stored.month@ == a.new_budget.1.text(),
        b.reloaded(Some(stored), payments).payments@.len() == 0,
        b.reloaded(Some(stored), payments).mode is Normal,
{
}

} // verus!
