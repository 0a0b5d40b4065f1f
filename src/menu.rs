use vstd::prelude::*;

verus! {

/// The screens of the terminal front end.
#[derive(Clone, Copy, Debug, PartialEq, Eq, Structural)]
pub enum CurrentScreen {
    Main,
    Editing,
    Exiting,
    SoundSelection,
    Error,
}

/// The setting whose value is being typed in.
#[derive(Clone, Copy, Debug, PartialEq, Eq, Structural)]
pub enum CurrentlyEditing {
    Bpm,
    Volume,
}

/// The selection after moving down in a list of `len` items: the next item,
/// wrapping from the last to the first; with no selection, the first.
pub open spec fn next_index(selected: Option<usize>, len: int) -> usize {
    match selected {
        Some(i) => if i + 1 < len {
            (i + 1) as usize
        } else {
            0
        },
        None => 0,
    }
}

/// The selection after moving up in a list of `len` items: the previous
/// item, wrapping from the first to the last; with no selection, the first.
pub open spec fn previous_index(selected: Option<usize>, len: int) -> usize {
    match selected {
        Some(i) => if i > 0 {
            (i - 1) as usize
        } else if len > 0 {
            (len - 1) as usize
        } else {
            0
        },
        None => 0,
    }
}

/// A menu in the abstract: its entries and the selection.
pub struct MenuView {
    pub items: Seq<Seq<char>>,
    pub selected: Option<usize>,
}

impl MenuView {
    /// The same entries with the selection `selected`.
    pub open spec fn with_selected(self, selected: Option<usize>) -> MenuView {
        MenuView { selected, ..self }
    }

    /// The menu after moving the selection down.
    pub open spec fn moved_down(self) -> MenuView {
        self.with_selected(Some(next_index(self.selected, self.items.len() as int)))
    }

    /// The menu after moving the selection up.
    pub open spec fn moved_up(self) -> MenuView {
        self.with_selected(Some(previous_index(self.selected, self.items.len() as int)))
    }
}

/// A list of entries with at most one of them selected.
pub struct Menu {
    pub items: Vec<String>,
    pub selected: Option<usize>,
}

impl View for Menu {
    type V = MenuView;

    open spec fn view(&self) -> MenuView {
        MenuView { items: self.items@.map_values(|s: String| s@), selected: self.selected }
    }
}

impl Menu {
    /// A menu of `items` with nothing selected.
    pub fn new(items: Vec<String>) -> (m: Menu)
        ensures
            m.items@ == items@,
            m.selected is None,
    {
        Menu { items, selected: None }
    }

    /// Replaces the entries and selects the first.
    pub fn set_items(&mut self, items: Vec<String>)
        ensures
            final(self).items@ == items@,
            final(self).selected == Some(0usize),
    {
        self.items = items;
        self.selected = Some(0);
    }

    /// Selects the next entry, wrapping around after the last.
    pub fn next(&mut self)
        ensures
            final(self).items@ == old(self).items@,
            final(self).selected == Some(next_index(old(self).selected, old(self).items@.len() as int)),
    {
        let len = self.items.len();
        let i: usize = match self.selected {
            Some(i) => if i < len && i + 1 < len {
                i + 1
            } else {
                0
            },
            None => 0,
        };
        self.selected = Some(i);
    }

    /// Selects the previous entry, wrapping around before the first.
    pub fn previous(&mut self)
        ensures
            final(self).items@ == old(self).items@,
            final(self).selected == Some(
                previous_index(old(self).selected, old(self).items@.len() as int),
            ),
    {
        let len = self.items.len();
        let i: usize = match self.selected {
            Some(i) => if i > 0 {
                i - 1
            } else if len > 0 {
                len - 1
            } else {
                0
            },
            None => 0,
        };
        self.selected = Some(i);
    }

    /// Clears the selection.
    pub fn unselect(&mut self)
        ensures
            final(self).items@ == old(self).items@,
            final(self).selected is None,
    {
        self.selected = None;
    }

    /// Selects the entry at `index`.
    pub fn select(&mut self, index: usize)
        ensures
            final(self).items@ == old(self).items@,
            final(self).selected == Some(index),
    {
        self.selected = Some(index);
    }
}

} // verus!
