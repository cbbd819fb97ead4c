//! A table of items with one selected row.
use vstd::prelude::*;
use crate::keys::Key;
use crate::navigation::Navigable;

verus! {

/// How wide a column is drawn.
#[derive(Debug, Clone, Copy, PartialEq, Eq, Structural)]
pub enum ColumnWidth {
    /// A fixed number of cells.
    Length(u16),
    /// A share of the table's width, in percent.
    Percentage(u16),
    /// At least this many cells.
    Min(u16),
}

/// One column: header, width, and whether it can be sorted on.
#[derive(Debug, Clone, Copy)]
pub struct ColumnDef {
    pub title: &'static str,
    pub width: ColumnWidth,
    pub sortable: bool,
}

impl ColumnDef {
    pub fn new(title: &'static str, width: ColumnWidth) -> (r: ColumnDef)
        ensures
            r.title == title,
            r.width == width,
            !r.sortable,
    {
        ColumnDef { title, width, sortable: false }
    }

    pub fn sortable(self) -> (r: ColumnDef)
        ensures
            r == (ColumnDef { sortable: true, ..self }),
    {
        ColumnDef { sortable: true, ..self }
    }
}

/// A table: its rows, the selected one, columns, sorting, and texts shown
/// when empty and above it.
#[derive(Debug)]
pub struct SelectableTable<T> {
    pub items: Vec<T>,
    pub selected: usize,
    pub columns: Vec<ColumnDef>,
    pub sort_column: Option<usize>,
    pub sort_ascending: bool,
    pub empty_message: String,
    pub block_title: Option<String>,
}

impl<T> SelectableTable<T> {
    pub fn new(items: Vec<T>, columns: Vec<ColumnDef>) -> (r: SelectableTable<T>)
        ensures
            r.items@ == items@,
            r.columns@ == columns@,
            r.selected == 0,
            r.sort_column is None,
            r.sort_ascending,
            r.empty_message@ == "No items"@,
            r.block_title is None,
    {
        SelectableTable {
            items,
            selected: 0,
            columns,
            sort_column: None,
            sort_ascending: true,
            empty_message: String::from_str("No items"),
            block_title: None,
        }
    }

    pub fn with_empty_message(self, message: &str) -> (r: SelectableTable<T>)
        ensures
            r.empty_message@ == message@,
            r.items@ == self.items@,
            r.selected == self.selected,
            r.block_title == self.block_title,
    {
        SelectableTable { empty_message: String::from_str(message), ..self }
    }

    pub fn with_block_title(self, title: &str) -> (r: SelectableTable<T>)
        ensures
            r.block_title matches Some(t) && t@ == title@,
            r.items@ == self.items@,
            r.selected == self.selected,
            r.empty_message == self.empty_message,
    {
        SelectableTable { block_title: Some(String::from_str(title)), ..self }
    }

    /// The selected row, if the selection is within the rows.
    pub fn selected_item(&self) -> (r: Option<&T>)
        ensures
            self.selected < self.items@.len() ==> r == Some(&self.items@[self.selected as int]),
            self.selected >= self.items@.len() ==> r is None,
    {
        if self.selected < self.items.len() {
            Some(&self.items[self.selected])
        } else {
            None
        }
    }

    pub fn is_empty(&self) -> (r: bool)
        ensures
            r == (self.items@.len() == 0),
    {
        self.items.len() == 0
    }

    pub fn len(&self) -> (r: usize)
        ensures
            r == self.items@.len(),
    {
        self.items.len()
    }

    /// Up and Down move the selection, wrapping. Returns whether the key was used.
    pub fn handle_key(&mut self, key: Key) -> (r: bool)
        ensures
            r == (key == Key::Up || key == Key::Down),
            final(self).items@ == old(self).items@,
            key == Key::Down && old(self).items@.len() > 0 ==> final(self).selected == (old(self).selected + 1) % (old(self).items@.len() as int),
            key == Key::Up && old(self).items@.len() > 0 ==> final(self).selected == if old(self).selected > 0 {
                old(self).selected - 1
            } else {
                old(self).items@.len() - 1
            },
            !r ==> final(self).selected == old(self).selected,
    {
        let n = self.items.len();
        match key {
            Key::Up => {
                if n > 0 {
                    self.selected = if self.selected > 0 { self.selected - 1 } else { n - 1 };
                }
                true
            },
            Key::Down => {
                if n > 0 {
                    let m = self.selected % n;
                    proof {
                        crate::navigation::lemma_wrap_next(self.selected as int, n as int);
                    }
                    self.selected = if m + 1 == n { 0 } else { m + 1 };
                }
                true
            },
            _ => false,
        }
    }
}

impl<T> Navigable for SelectableTable<T> {
    open spec fn nav_len(&self) -> nat {
        self.items@.len()
    }

    open spec fn nav_selected(&self) -> nat {
        self.selected as nat
    }

    fn len(&self) -> (r: usize) {
        self.items.len()
    }

    fn selected(&self) -> (r: usize) {
        self.selected
    }

    fn set_selected(&mut self, index: usize) {
        self.selected = index;
    }
}

} // verus!
