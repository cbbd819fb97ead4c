//! Page-by-page view of a list.
use vstd::prelude::*;
use crate::keys::Key;
use crate::text::{decimal, decimal_text};

verus! {

/// A list shown `page_size` items at a time, on page `current_page` (from 0).
#[derive(Debug)]
pub struct PaginatedView<T> {
    pub items: Vec<T>,
    pub current_page: usize,
    pub page_size: usize,
}

/// Pages needed for `len` items: at least one, even for no items.
pub open spec fn pages_for(len: nat, size: nat) -> nat {
    if len == 0 {
        1
    } else {
        len / size + if len % size == 0 { 0nat } else { 1nat }
    }
}

impl<T> PaginatedView<T> {
    pub open spec fn wf(&self) -> bool {
        self.page_size >= 1
    }

    pub open spec fn spec_total_pages(&self) -> nat {
        pages_for(self.items@.len(), self.page_size as nat)
    }

    /// A view on the first page; a page size of 0 is taken as 1.
    pub fn new(items: Vec<T>, page_size: usize) -> (r: PaginatedView<T>)
        ensures
            r.wf(),
            r.items@ == items@,
            r.current_page == 0,
            r.page_size == if page_size == 0 { 1 } else { page_size },
    {
        PaginatedView { items, current_page: 0, page_size: if page_size == 0 { 1 } else { page_size } }
    }

    /// The items of the current page.
    pub fn current_page_items(&self) -> (r: &[T])
        requires
            self.wf(),
            self.current_page as int * self.page_size as int <= self.items@.len(),
        ensures
            r@ == self.items@.subrange(
                self.current_page as int * self.page_size as int,
                if self.current_page as int * self.page_size as int + self.page_size as int <= self.items@.len() {
                    self.current_page as int * self.page_size as int + self.page_size as int
                } else {
                    self.items@.len() as int
                },
            ),
    {
        let n = self.items.len();
        let start = self.current_page * self.page_size;
        let end = if n - start >= self.page_size { start + self.page_size } else { n };
        let s = self.items.as_slice();
        &s[start..end]
    }

    /// Number of pages; an empty view has one.
    pub fn total_pages(&self) -> (r: usize)
        requires
            self.wf(),
        ensures
            r == self.spec_total_pages(),
            r >= 1,
    {
        let n = self.items.len();
        if n == 0 {
            1
        } else {
            proof {
                let q = n as int / self.page_size as int;
                let m = n as int % self.page_size as int;
                vstd::arithmetic::div_mod::lemma_fundamental_div_mod(n as int, self.page_size as int);
                vstd::arithmetic::div_mod::lemma_mod_bound(n as int, self.page_size as int);
                vstd::arithmetic::div_mod::lemma_div_pos_is_pos(n as int, self.page_size as int);
                assert(self.page_size * q >= q) by (nonlinear_arith)
                    requires
                        self.page_size >= 1,
                        q >= 0,
                ;
                assert(q == 0 ==> self.page_size * q == 0) by (nonlinear_arith);
                assert(q + (if m == 0 { 0int } else { 1int }) <= n);
                assert(q + (if m == 0 { 0int } else { 1int }) >= 1);
            }
            n / self.page_size + if n % self.page_size == 0 { 0 } else { 1 }
        }
    }

    /// Moves one page forward, unless on the last page.
    pub fn next_page(&mut self)
        requires
            old(self).wf(),
        ensures
            final(self).wf(),
            final(self).items@ == old(self).items@,
            final(self).page_size == old(self).page_size,
            final(self).current_page == if old(self).current_page + 1 < old(self).spec_total_pages() {
                old(self).current_page + 1
            } else {
                old(self).current_page as int
            },
    {
        if self.current_page < self.total_pages() - 1 {
            self.current_page = self.current_page + 1;
        }
    }

    /// Moves one page back, unless on the first page.
    pub fn prev_page(&mut self)
        ensures
            final(self).items@ == old(self).items@,
            final(self).page_size == old(self).page_size,
            final(self).current_page == if old(self).current_page > 0 {
                old(self).current_page - 1
            } else {
                0
            },
    {
        if self.current_page > 0 {
            self.current_page = self.current_page - 1;
        }
    }

    pub fn first_page(&mut self)
        ensures
            final(self).items@ == old(self).items@,
            final(self).page_size == old(self).page_size,
            final(self).current_page == 0,
    {
        self.current_page = 0;
    }

    pub fn last_page(&mut self)
        requires
            old(self).wf(),
        ensures
            final(self).wf(),
            final(self).items@ == old(self).items@,
            final(self).page_size == old(self).page_size,
            final(self).current_page == old(self).spec_total_pages() - 1,
    {
        self.current_page = self.total_pages() - 1;
    }

    /// The current page counted from 1, for display.
    pub fn current_page_number(&self) -> (r: usize)
        requires
            self.current_page < usize::MAX,
        ensures
            r == self.current_page + 1,
    {
        self.current_page + 1
    }

    /// `Page {n}/{total}`.
    pub fn page_info(&self) -> (r: String)
        requires
            self.wf(),
            self.current_page < usize::MAX,
        ensures
            r@ == "Page "@ + decimal_text(self.current_page as nat + 1) + "/"@ + decimal_text(self.spec_total_pages()),
    {
        let mut out = String::from_str("Page ");
        let n = decimal(self.current_page_number());
        out.append(n.as_str());
        out.append("/");
        let t = decimal(self.total_pages());
        out.append(t.as_str());
        out
    }

    /// `Showing {first}-{last} of {total}`, or `No items`.
    pub fn item_range_info(&self) -> (r: String)
        requires
            self.wf(),
            self.current_page as int * self.page_size as int + self.page_size as int <= usize::MAX,
        ensures
            self.items@.len() == 0 ==> r@ == "No items"@,
            self.items@.len() > 0 ==> r@ == "Showing "@ + decimal_text((self.current_page as int * self.page_size as int + 1) as nat)
                + "-"@ + decimal_text(
                    if self.current_page as int * self.page_size as int + self.page_size as int <= self.items@.len() {
                        (self.current_page as int * self.page_size as int + self.page_size as int) as nat
                    } else {
                        self.items@.len()
                    },
                ) + " of "@ + decimal_text(self.items@.len()),
    {
        let n = self.items.len();
        if n == 0 {
            return String::from_str("No items");
        }
        let base = self.current_page * self.page_size;
        let start = base + 1;
        let end_full = base + self.page_size;
        let end = if end_full <= n { end_full } else { n };
        let mut out = String::from_str("Showing ");
        out.append(decimal(start).as_str());
        out.append("-");
        out.append(decimal(end).as_str());
        out.append(" of ");
        out.append(decimal(n).as_str());
        out
    }

    /// PageDown or `]` moves forward, PageUp or `[` back, Home to the first
    /// page and End to the last. Returns whether the key was used.
    pub fn handle_key(&mut self, key: Key) -> (r: bool)
        requires
            old(self).wf(),
        ensures
            final(self).wf(),
            r == (key == Key::PageDown || key == Key::Char(']') || key == Key::PageUp || key == Key::Char('[')
                || key == Key::Home || key == Key::End),
            final(self).items@ == old(self).items@,
            final(self).page_size == old(self).page_size,
            key == Key::Home ==> final(self).current_page == 0,
            key == Key::End ==> final(self).current_page == old(self).spec_total_pages() - 1,
            !r ==> final(self).current_page == old(self).current_page,
    {
        match key {
            Key::PageDown | Key::Char(']') => {
                self.next_page();
                true
            },
            Key::PageUp | Key::Char('[') => {
                self.prev_page();
                true
            },
            Key::Home => {
                self.first_page();
                true
            },
            Key::End => {
                self.last_page();
                true
            },
            _ => false,
        }
    }

    pub fn is_first_page(&self) -> (r: bool)
        ensures
            r == (self.current_page == 0),
    {
        self.current_page == 0
    }

    pub fn is_last_page(&self) -> (r: bool)
        requires
            self.wf(),
        ensures
            r == (self.current_page >= self.spec_total_pages() - 1),
    {
        self.current_page >= self.total_pages() - 1
    }

    pub fn total_items(&self) -> (r: usize)
        ensures
            r == self.items@.len(),
    {
        self.items.len()
    }

    pub fn is_empty(&self) -> (r: bool)
        ensures
            r == (self.items@.len() == 0),
    {
        self.items.len() == 0
    }
}

} // verus!
