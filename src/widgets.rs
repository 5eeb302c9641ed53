//! The per-widget input state machines: the text field for the stock symbol
//! and the selection menus for the time frame and the indicator.
use vstd::prelude::*;
use crate::text::{ascii_upper, string_of};

verus! {

/// The keys the widgets and the chart react to; `Other` stands for the rest.
#[derive(Clone, Copy, Debug, PartialEq, Eq, Structural)]
pub enum KeyCode {
    Char(char),
    Enter,
    Esc,
    Backspace,
    Up,
    Down,
    Left,
    Right,
    Home,
    Other,
}

/// What a text field reports to the arbitration layer.
#[derive(Clone, Debug)]
pub enum TextFieldEvent {
    /// Enter was pressed on this value.
    Accept(String),
    /// The edit was abandoned.
    Cancel,
}

/// Whether `r` is `c` as a field that upper-cases (or not) stores it.
pub open spec fn stored_char(upper: bool, c: char, r: char) -> bool {
    if upper && 'a' <= c <= 'z' {
        r as u32 == c as u32 - 32
    } else {
        r == c
    }
}

/// A single-line text field; the cursor stands after the last character.
#[derive(Clone, Debug)]
pub struct TextFieldState {
    pub active: bool,
    pub value: Vec<char>,
    /// Whether typed letters are stored upper-cased.
    pub upper: bool,
}

impl TextFieldState {
    /// An inactive, empty field.
    pub fn new(upper: bool) -> (r: TextFieldState)
        ensures
            !r.active,
            r.value@.len() == 0,
            r.upper == upper,
    {
        TextFieldState { active: false, value: Vec::new(), upper }
    }

    /// The cursor position: the number of characters typed.
    pub fn cursor(&self) -> (r: usize)
        ensures
            r == self.value@.len(),
    {
        self.value.len()
    }

    /// The text typed so far.
    pub fn value_string(&self) -> (r: String)
        ensures
            r@ == self.value@,
    {
        string_of(&self.value)
    }

    /// Opens the field on an empty buffer.
    pub fn activate(&mut self)
        ensures
            final(self).active,
            final(self).value@.len() == 0,
            final(self).upper == old(self).upper,
    {
        self.active = true;
        self.value = Vec::new();
    }

    /// Closes the field and discards the edit.
    pub fn deactivate(&mut self)
        ensures
            !final(self).active,
            final(self).value@.len() == 0,
            final(self).upper == old(self).upper,
    {
        self.active = false;
        self.value = Vec::new();
    }

    /// Takes one key while the field is active.
    pub fn handle_key(&mut self, key: KeyCode) -> (r: Option<TextFieldEvent>)
        requires
            old(self).active,
        ensures
            final(self).upper == old(self).upper,
            match key {
                KeyCode::Char(c) => r is None && final(self).active && final(self).value@.len()
                    == old(self).value@.len() + 1 && final(self).value@.drop_last()
                    == old(self).value@ && stored_char(
                    old(self).upper,
                    c,
                    final(self).value@.last(),
                ),
                KeyCode::Backspace => r is None && final(self).active && final(self).value@ == (
                if old(self).value@.len() == 0 {
                    old(self).value@
                } else {
                    old(self).value@.drop_last()
                }),
                KeyCode::Enter => (r matches Some(TextFieldEvent::Accept(v)) && v@ == old(
                    self,
                ).value@) && !final(self).active && final(self).value@.len() == 0,
                KeyCode::Esc => (r matches Some(TextFieldEvent::Cancel)) && !final(self).active
                    && final(self).value@.len() == 0,
                _ => r is None && final(self).active && final(self).value@ == old(self).value@,
            },
    {
        match key {
            KeyCode::Char(c) => {
                let d = if self.upper {
                    ascii_upper(c)
                } else {
                    c
                };
                self.value.push(d);
                proof {
                    assert(self.value@.drop_last() =~= old(self).value@);
                }
                None
            },
            KeyCode::Backspace => {
                if self.value.len() > 0 {
                    self.value.pop();
                }
                None
            },
            KeyCode::Enter => {
                let v = string_of(&self.value);
                self.deactivate();
                Some(TextFieldEvent::Accept(v))
            },
            KeyCode::Esc => {
                self.deactivate();
                Some(TextFieldEvent::Cancel)
            },
            _ => None,
        }
    }
}

/// What a selection menu reports to the arbitration layer.
#[derive(Clone, Copy, Debug, PartialEq, Eq)]
pub enum SelectMenuEvent<T> {
    /// Enter was pressed on this selection.
    Accept(Option<T>),
    /// The navigation was abandoned.
    Cancel,
}

/// Why a selection was refused.
#[derive(Clone, Copy, Debug, PartialEq, Eq, Structural)]
pub enum SelectError {
    /// The index is past the last candidate.
    OutOfRange,
    /// The menu must hold a selection.
    EmptyNotAllowed,
}

/// The cursor one row up; no wraparound. Above the first candidate stands the
/// empty selection where the menu allows it.
pub open spec fn cursor_up(sel: Option<usize>, allow_empty: bool) -> Option<usize> {
    match sel {
        None => None,
        Some(i) => if i == 0 {
            if allow_empty {
                None
            } else {
                Some(0)
            }
        } else {
            Some((i - 1) as usize)
        },
    }
}

/// The cursor one row down; no wraparound.
pub open spec fn cursor_down(sel: Option<usize>, n: nat) -> Option<usize> {
    match sel {
        None => if n > 0 {
            Some(0)
        } else {
            None
        },
        Some(i) => if i + 1 < n {
            Some((i + 1) as usize)
        } else {
            Some(i)
        },
    }
}

/// The cursor after picking the candidate shown on `row` of a menu of `n`
/// candidates; row 0 is the empty selection where the menu allows it, and a
/// row past the end moves nothing.
pub open spec fn picked(sel: Option<usize>, allow_empty: bool, n: nat, row: int) -> Option<usize> {
    if allow_empty {
        if row == 0 {
            None
        } else if row - 1 < n {
            Some((row - 1) as usize)
        } else {
            sel
        }
    } else if row < n {
        Some(row as usize)
    } else {
        sel
    }
}

/// The value under the cursor `sel` among `items`.
pub open spec fn value_at<T>(items: Seq<T>, sel: Option<usize>) -> Option<T> {
    match sel {
        Some(i) => Some(items[i as int]),
        None => None,
    }
}

/// A menu over an ordered list of candidates.
#[derive(Clone, Debug)]
pub struct SelectMenuState<T> {
    pub items: Vec<T>,
    pub selected: Option<usize>,
    pub allow_empty_selection: bool,
    pub active: bool,
    /// The selection held when the menu was opened.
    pub saved: Option<usize>,
}

impl<T: Copy> SelectMenuState<T> {
    pub open spec fn valid_selection(&self, sel: Option<usize>) -> bool {
        match sel {
            Some(i) => i < self.items@.len(),
            None => self.allow_empty_selection || self.items@.len() == 0,
        }
    }

    pub open spec fn wf(&self) -> bool {
        self.valid_selection(self.selected) && self.valid_selection(self.saved)
    }

    /// An inactive menu on `items`, on the empty selection where allowed and
    /// on the first candidate otherwise.
    pub fn new(items: Vec<T>, allow_empty_selection: bool) -> (r: SelectMenuState<T>)
        ensures
            r.wf(),
            !r.active,
            r.items@ == items@,
            r.allow_empty_selection == allow_empty_selection,
            r.selected == (if allow_empty_selection || items@.len() == 0 {
                None::<usize>
            } else {
                Some(0usize)
            }),
    {
        let selected = if allow_empty_selection || items.len() == 0 {
            None
        } else {
            Some(0)
        };
        SelectMenuState { items, selected, allow_empty_selection, active: false, saved: selected }
    }

    /// Moves the cursor to `sel`.
    pub fn select(&mut self, sel: Option<usize>) -> (r: Result<(), SelectError>)
        requires
            old(self).wf(),
        ensures
            final(self).wf(),
            final(self).items@ == old(self).items@,
            final(self).active == old(self).active,
            final(self).allow_empty_selection == old(self).allow_empty_selection,
            r is Ok <==> old(self).valid_selection(sel),
            r is Ok ==> final(self).selected == sel && final(self).saved == sel,
            r is Err ==> *final(self) == *old(self),
            r == Err::<(), SelectError>(SelectError::OutOfRange) <==> (sel matches Some(i) && i
                >= old(self).items@.len()),
    {
        match sel {
            Some(i) => if i >= self.items.len() {
                return Err(SelectError::OutOfRange);
            },
            None => if !self.allow_empty_selection && self.items.len() > 0 {
                return Err(SelectError::EmptyNotAllowed);
            },
        }
        self.selected = sel;
        self.saved = sel;
        Ok(())
    }

    /// The candidate under the cursor.
    pub fn selection(&self) -> (r: Option<T>)
        requires
            self.wf(),
        ensures
            r == value_at(self.items@, self.selected),
    {
        match self.selected {
            Some(i) => Some(self.items[i]),
            None => None,
        }
    }

    /// Opens the menu, remembering the selection to fall back to.
    pub fn activate(&mut self)
        requires
            old(self).wf(),
        ensures
            final(self).wf(),
            final(self).active,
            final(self).saved == old(self).selected,
            final(self).selected == old(self).selected,
            final(self).items@ == old(self).items@,
            final(self).allow_empty_selection == old(self).allow_empty_selection,
    {
        self.active = true;
        self.saved = self.selected;
    }

    /// Closes the menu and discards the navigation since it was opened.
    pub fn deactivate(&mut self)
        requires
            old(self).wf(),
        ensures
            final(self).wf(),
            !final(self).active,
            final(self).selected == old(self).saved,
            final(self).saved == old(self).saved,
            final(self).items@ == old(self).items@,
            final(self).allow_empty_selection == old(self).allow_empty_selection,
    {
        self.active = false;
        self.selected = self.saved;
    }

    /// Selects the candidate shown on `row` (row 0 is the empty selection
    /// where the menu allows it); a row past the end moves nothing.
    pub fn pick_row(&mut self, row: usize)
        requires
            old(self).wf(),
        ensures
            final(self).wf(),
            final(self).active == old(self).active,
            final(self).saved == old(self).saved,
            final(self).items@ == old(self).items@,
            final(self).allow_empty_selection == old(self).allow_empty_selection,
            final(self).selected == picked(
                old(self).selected,
                old(self).allow_empty_selection,
                old(self).items@.len(),
                row as int,
            ),
    {
        if self.allow_empty_selection {
            if row == 0 {
                self.selected = None;
            } else if row - 1 < self.items.len() {
                self.selected = Some(row - 1);
            }
        } else if row < self.items.len() {
            self.selected = Some(row);
        }
    }

    /// Takes one key while the menu is active.
    pub fn handle_key(&mut self, key: KeyCode) -> (r: Option<SelectMenuEvent<T>>)
        requires
            old(self).wf(),
            old(self).active,
        ensures
            final(self).wf(),
            final(self).items@ == old(self).items@,
            final(self).allow_empty_selection == old(self).allow_empty_selection,
            match key {
                KeyCode::Up => r is None && final(self).active && final(self).saved == old(
                    self,
                ).saved && final(self).selected == cursor_up(
                    old(self).selected,
                    old(self).allow_empty_selection,
                ),
                KeyCode::Down => r is None && final(self).active && final(self).saved == old(
                    self,
                ).saved && final(self).selected == cursor_down(
                    old(self).selected,
                    old(self).items@.len(),
                ),
                KeyCode::Enter => r == Some(
                    SelectMenuEvent::Accept(value_at(old(self).items@, old(self).selected)),
                ) && !final(self).active && final(self).selected == old(self).selected
                    && final(self).saved == old(self).selected,
                KeyCode::Esc => r == Some(SelectMenuEvent::<T>::Cancel) && !final(self).active
                    && final(self).selected == old(self).saved,
                _ => r is None && *final(self) == *old(self),
            },
    {
        match key {
            KeyCode::Up => {
                match self.selected {
                    Some(i) => if i == 0 {
                        if self.allow_empty_selection {
                            self.selected = None;
                        }
                    } else {
                        self.selected = Some(i - 1);
                    },
                    None => {},
                }
                None
            },
            KeyCode::Down => {
                match self.selected {
                    None => if self.items.len() > 0 {
                        self.selected = Some(0);
                    },
                    Some(i) => if i < self.items.len() - 1 {
                        self.selected = Some(i + 1);
                    },
                }
                None
            },
            KeyCode::Enter => {
                let v = self.selection();
                self.saved = self.selected;
                self.active = false;
                Some(SelectMenuEvent::Accept(v))
            },
            KeyCode::Esc => {
                self.deactivate();
                Some(SelectMenuEvent::Cancel)
            },
            _ => None,
        }
    }
}

} // verus!
