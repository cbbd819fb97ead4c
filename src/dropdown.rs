//! A filterable list of options with one selected entry.
use vstd::prelude::*;
use crate::keys::Key;
use crate::navigation::Navigable;
use crate::text::{contains_text, lower_of, lowercase, occurs_in, push_char};

verus! {

/// Whether an option is shown under a filter: always with an empty filter,
/// else when the filter occurs in the option, ignoring case.
pub open spec fn option_shown(filter: Seq<char>, opt: Seq<char>) -> bool {
    filter.len() == 0 || occurs_in(lower_of(filter), lower_of(opt))
}

/// Indices of the options shown under the filter, in order.
pub open spec fn shown_indices(options: Seq<String>, filter: Seq<char>) -> Seq<usize>
    decreases options.len(),
{
    if options.len() == 0 {
        Seq::empty()
    } else {
        let p = shown_indices(options.drop_last(), filter);
        if option_shown(filter, options.last()@) {
            p.push((options.len() - 1) as usize)
        } else {
            p
        }
    }
}

/// A dropdown: options, the selected position among the shown ones, the
/// filter text, a title, and whether "none" may be chosen.
#[derive(Debug, Clone)]
pub struct Dropdown {
    pub options: Vec<String>,
    pub selected: usize,
    pub filter: String,
    pub title: String,
    pub allow_none: bool,
}

proof fn lemma_shown_bounded(options: Seq<String>, filter: Seq<char>)
    ensures
        forall|k: int| 0 <= k < shown_indices(options, filter).len() ==> shown_indices(options, filter)[k] < options.len(),
        shown_indices(options, filter).len() <= options.len(),
    decreases options.len(),
{
    if options.len() > 0 {
        lemma_shown_bounded(options.drop_last(), filter);
    }
}

impl Dropdown {
    pub open spec fn shown(&self) -> Seq<usize> {
        shown_indices(self.options@, self.filter@)
    }

    pub fn new(options: Vec<String>, title: &str) -> (r: Dropdown)
        ensures
            r.options@ == options@,
            r.selected == 0,
            r.filter@.len() == 0,
            r.title@ == title@,
            !r.allow_none,
    {
        Dropdown { options, selected: 0, filter: String::new(), title: String::from_str(title), allow_none: false }
    }

    pub fn with_none_option(self) -> (r: Dropdown)
        ensures
            r == (Dropdown { allow_none: true, ..self }),
    {
        Dropdown { allow_none: true, ..self }
    }

    /// Indices of the options that the filter shows.
    pub fn filtered_indices(&self) -> (r: Vec<usize>)
        ensures
            r@ == self.shown(),
    {
        let f = lowercase(self.filter.as_str());
        let empty = self.filter.as_str().unicode_len() == 0;
        let mut out: Vec<usize> = Vec::new();
        let mut i: usize = 0;
        while i < self.options.len()
            invariant
                i <= self.options@.len(),
                f@ == lower_of(self.filter@),
                empty == (self.filter@.len() == 0),
                out@ == shown_indices(self.options@.subrange(0, i as int), self.filter@),
            decreases self.options@.len() - i,
        {
            proof {
                assert(self.options@.subrange(0, i + 1).drop_last() =~= self.options@.subrange(0, i as int));
            }
            let keep = if empty {
                true
            } else {
                let o = lowercase(self.options[i].as_str());
                contains_text(o.as_str(), f.as_str())
            };
            if keep {
                out.push(i);
            }
            i = i + 1;
        }
        proof {
            assert(self.options@.subrange(0, self.options@.len() as int) =~= self.options@);
        }
        out
    }

    /// The shown options with their indices among all options.
    pub fn filtered_options(&self) -> (r: Vec<(usize, &String)>)
        ensures
            r@.len() == self.shown().len(),
            forall|k: int| 0 <= k < r@.len() ==> r@[k].0 == self.shown()[k] && *r@[k].1 == self.options@[self.shown()[k] as int],
    {
        let idx = self.filtered_indices();
        proof {
            lemma_shown_bounded(self.options@, self.filter@);
        }
        let mut out: Vec<(usize, &String)> = Vec::new();
        let mut k: usize = 0;
        while k < idx.len()
            invariant
                idx@ == self.shown(),
                k <= idx@.len(),
                forall|t: int| 0 <= t < idx@.len() ==> idx@[t] < self.options@.len(),
                out@.len() == k,
                forall|t: int| 0 <= t < k ==> out@[t].0 == idx@[t] && *out@[t].1 == self.options@[idx@[t] as int],
            decreases idx@.len() - k,
        {
            let i = idx[k];
            out.push((i, &self.options[i]));
            k = k + 1;
        }
        out
    }

    /// The selected option among the shown ones, if the position is in range.
    pub fn selected_option(&self) -> (r: Option<&String>)
        ensures
            self.selected < self.shown().len() ==> r == Some(&self.options@[self.shown()[self.selected as int] as int]),
            self.selected >= self.shown().len() ==> r is None,
    {
        let idx = self.filtered_indices();
        proof {
            lemma_shown_bounded(self.options@, self.filter@);
        }
        if self.selected < idx.len() {
            Some(&self.options[idx[self.selected]])
        } else {
            None
        }
    }

    /// Index, among all options, of the selected shown option.
    pub fn selected_index(&self) -> (r: Option<usize>)
        ensures
            self.selected < self.shown().len() ==> r == Some(self.shown()[self.selected as int]),
            self.selected >= self.shown().len() ==> r is None,
    {
        let idx = self.filtered_indices();
        if self.selected < idx.len() {
            Some(idx[self.selected])
        } else {
            None
        }
    }

    /// Up and Down move among the shown options, Enter returns the selected
    /// index, typing extends the filter and Backspace shortens it (both
    /// resetting the selection to the first shown option).
    pub fn handle_key(&mut self, key: Key) -> (r: Option<usize>)
        ensures
            final(self).options@ == old(self).options@,
            key == Key::Enter ==> *final(self) == *old(self) && r == (if old(self).selected < old(self).shown().len() {
                Some(old(self).shown()[old(self).selected as int])
            } else {
                None
            }),
            key != Key::Enter ==> r is None,
            key == Key::Down && old(self).shown().len() > 0 ==> final(self).filter == old(self).filter
                && final(self).selected == (old(self).selected + 1) % (old(self).shown().len() as int),
            key == Key::Up && old(self).shown().len() > 0 ==> final(self).filter == old(self).filter
                && final(self).selected == if old(self).selected > 0 {
                old(self).selected - 1
            } else {
                old(self).shown().len() - 1
            },
            (key matches Key::Char(c) ==> final(self).filter@ == old(self).filter@.push(c) && final(self).selected == 0),
            key == Key::Backspace ==> final(self).selected == 0 && final(self).filter@ == if old(self).filter@.len() > 0 {
                old(self).filter@.drop_last()
            } else {
                old(self).filter@
            },
    {
        match key {
            Key::Up => {
                let n = self.len();
                if n > 0 {
                    if self.selected > 0 {
                        self.selected = self.selected - 1;
                    } else {
                        self.selected = n - 1;
                    }
                }
                None
            },
            Key::Down => {
                let n = self.len();
                if n > 0 {
                    let m = self.selected % n;
                    proof {
                        crate::navigation::lemma_wrap_next(self.selected as int, n as int);
                    }
                    self.selected = if m + 1 == n { 0 } else { m + 1 };
                }
                None
            },
            Key::Enter => self.selected_index(),
            Key::Char(c) => {
                push_char(&mut self.filter, c);
                self.selected = 0;
                None
            },
            Key::Backspace => {
                let n = self.filter.as_str().unicode_len();
                if n > 0 {
                    let shorter = String::from_str(self.filter.as_str().substring_char(0, n - 1));
                    self.filter = shorter;
                }
                self.selected = 0;
                None
            },
            _ => None,
        }
    }
}

impl Navigable for Dropdown {
    open spec fn nav_len(&self) -> nat {
        self.shown().len()
    }

    open spec fn nav_selected(&self) -> nat {
        self.selected as nat
    }

    fn len(&self) -> (r: usize) {
        self.filtered_indices().len()
    }

    fn selected(&self) -> (r: usize) {
        self.selected
    }

    fn set_selected(&mut self, index: usize) {
        self.selected = index;
    }
}

} // verus!
