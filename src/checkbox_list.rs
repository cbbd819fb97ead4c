//! A list of items with a focused position and a set of checked indices.
use vstd::prelude::*;
use std::collections::HashSet;
use crate::keys::Key;
use crate::navigation::Navigable;

verus! {

broadcast use vstd::std_specs::hash::group_hash_axioms;

/// Whether a sequence of indices is strictly increasing.
pub open spec fn strictly_increasing(s: Seq<usize>) -> bool {
    forall|a: int, b: int| 0 <= a < b < s.len() ==> s[a] < s[b]
}

/// A list whose items can be checked and unchecked, with one focused item.
#[derive(Debug)]
pub struct CheckboxList<T> {
    pub items: Vec<T>,
    pub selected_idx: usize,
    pub checked_indices: HashSet<usize>,
}

/// Inserts `x` into a strictly increasing vector, keeping it so.
fn insert_sorted(out: &mut Vec<usize>, x: usize)
    requires
        strictly_increasing(old(out)@),
        !old(out)@.contains(x),
    ensures
        strictly_increasing(final(out)@),
        forall|y: usize| final(out)@.contains(y) <==> (old(out)@.contains(y) || y == x),
{
    let mut k: usize = 0;
    while k < out.len() && out[k] < x
        invariant
            k <= out@.len(),
            forall|t: int| 0 <= t < k ==> out@[t] < x,
        decreases out@.len() - k,
    {
        k = k + 1;
    }
    let ghost pre = out@;
    out.insert(k, x);
    proof {
        assert(out@ == pre.insert(k as int, x));
        assert forall|a: int, b: int| 0 <= a < b < out@.len() implies out@[a] < out@[b] by {
            if k < pre.len() {
                assert(pre[k as int] != x);
                assert(pre[k as int] >= x);
            }
            if b < k {
                assert(out@[a] == pre[a] && out@[b] == pre[b]);
            } else if b == k {
                assert(out@[a] == pre[a]);
            } else if a == k {
                assert(out@[b] == pre[b - 1]);
                assert(pre[k as int] >= x);
                if b - 1 > k {
                    assert(pre[k as int] < pre[b - 1]);
                }
                assert(pre[k as int] != x);
            } else if a < k {
                assert(out@[a] == pre[a] && out@[b] == pre[b - 1]);
            } else {
                assert(out@[a] == pre[a - 1] && out@[b] == pre[b - 1]);
            }
        }
        assert forall|y: usize| out@.contains(y) <==> (pre.contains(y) || y == x) by {
            if out@.contains(y) {
                let t = choose|t: int| 0 <= t < out@.len() && out@[t] == y;
                if t < k {
                    assert(pre[t] == y);
                } else if t > k {
                    assert(pre[t - 1] == y);
                }
            }
            if pre.contains(y) {
                let t = choose|t: int| 0 <= t < pre.len() && pre[t] == y;
                if t < k {
                    assert(out@[t] == y);
                } else {
                    assert(out@[t + 1] == y);
                }
            }
            if y == x {
                assert(out@[k as int] == x);
            }
        }
    }
}

impl<T: Clone> CheckboxList<T> {
    /// A list with nothing checked and the first item focused.
    pub fn new(items: Vec<T>) -> (r: CheckboxList<T>)
        ensures
            r.items@ == items@,
            r.selected_idx == 0,
            r.checked_indices@ == Set::<usize>::empty(),
    {
        CheckboxList { items, selected_idx: 0, checked_indices: HashSet::new() }
    }

    /// A list with the given indices checked.
    pub fn with_checked(items: Vec<T>, checked: Vec<usize>) -> (r: CheckboxList<T>)
        ensures
            r.items@ == items@,
            r.selected_idx == 0,
            r.checked_indices@ == checked@.to_set(),
    {
        let mut set: HashSet<usize> = HashSet::new();
        let mut i: usize = 0;
        while i < checked.len()
            invariant
                i <= checked@.len(),
                set@ == checked@.subrange(0, i as int).to_set(),
            decreases checked@.len() - i,
        {
            set.insert(checked[i]);
            proof {
                assert(checked@.subrange(0, i + 1) =~= checked@.subrange(0, i as int) + seq![checked@[i as int]]);
                vstd::seq::Seq::<usize>::lemma_to_set_insert_commutes(checked@.subrange(0, i as int), checked@[i as int]);
                assert(set@ =~= checked@.subrange(0, i + 1).to_set());
            }
            i = i + 1;
        }
        proof {
            assert(checked@.subrange(0, checked@.len() as int) =~= checked@);
        }
        CheckboxList { items, selected_idx: 0, checked_indices: set }
    }

    /// Checks the focused item if it was unchecked, and unchecks it otherwise.
    pub fn toggle_current(&mut self)
        ensures
            final(self).items@ == old(self).items@,
            final(self).selected_idx == old(self).selected_idx,
            final(self).checked_indices@ == if old(self).checked_indices@.contains(old(self).selected_idx) {
                old(self).checked_indices@.remove(old(self).selected_idx)
            } else {
                old(self).checked_indices@.insert(old(self).selected_idx)
            },
    {
        let idx = self.selected_idx;
        if self.checked_indices.contains(&idx) {
            self.checked_indices.remove(&idx);
        } else {
            self.checked_indices.insert(idx);
        }
    }

    pub fn is_checked(&self, index: usize) -> (r: bool)
        ensures
            r == self.checked_indices@.contains(index),
    {
        self.checked_indices.contains(&index)
    }

    /// Checks every item.
    pub fn select_all(&mut self)
        ensures
            final(self).items@ == old(self).items@,
            final(self).selected_idx == old(self).selected_idx,
            final(self).checked_indices@ == Set::new(|i: usize| i < old(self).items@.len()),
    {
        let n = self.items.len();
        let mut set: HashSet<usize> = HashSet::new();
        let mut i: usize = 0;
        while i < n
            invariant
                n == self.items@.len(),
                i <= n,
                set@ == Set::new(|j: usize| j < i),
            decreases n - i,
        {
            set.insert(i);
            proof {
                assert(set@ =~= Set::new(|j: usize| j < i + 1));
            }
            i = i + 1;
        }
        self.checked_indices = set;
    }

    /// Unchecks every item.
    pub fn deselect_all(&mut self)
        ensures
            final(self).items@ == old(self).items@,
            final(self).selected_idx == old(self).selected_idx,
            final(self).checked_indices@ == Set::<usize>::empty(),
    {
        self.checked_indices.clear();
    }

    /// Unchecks everything when as many indices are checked as there are
    /// items, and checks every item otherwise.
    pub fn toggle_all(&mut self)
        ensures
            final(self).items@ == old(self).items@,
            final(self).selected_idx == old(self).selected_idx,
            final(self).checked_indices@ == if old(self).checked_indices@.len() == old(self).items@.len() {
                Set::<usize>::empty()
            } else {
                Set::new(|i: usize| i < old(self).items@.len())
            },
    {
        if self.checked_indices.len() == self.items.len() {
            self.deselect_all();
        } else {
            self.select_all();
        }
    }

    /// The checked indices in increasing order.
    pub fn get_checked_indices(&self) -> (r: Vec<usize>)
        ensures
            strictly_increasing(r@),
            forall|i: usize| r@.contains(i) <==> self.checked_indices@.contains(i),
    {
        let mut out: Vec<usize> = Vec::new();
        for x in it: self.checked_indices.iter()
            invariant
                strictly_increasing(out@),
                it.seq().no_duplicates(),
                it.seq().unref().to_set() == self.checked_indices@,
                forall|i: usize| out@.contains(i) <==> exists|t: int| 0 <= t < it.index() && *it.seq()[t] == i,
                forall|i: usize| out@.contains(i) ==> self.checked_indices@.contains(i),
                forall|i: usize| self.checked_indices@.contains(i) ==>
                    (out@.contains(i) || exists|t: int| it.index() <= t < it.seq().len() && *it.seq()[t] == i),
        {
            proof {
                if out@.contains(*x) {
                    let t = choose|t: int| 0 <= t < it.index() && *it.seq()[t] == *x;
                    assert(it.seq()[t] == it.seq()[it.index() as int]);
                }
                let u = it.seq().unref();
                assert(u[it.index() as int] == *x);
                assert(u.to_set().contains(*x));
                assert forall|i: usize| self.checked_indices@.contains(i) implies
                    (out@.contains(i) || i == *x || exists|t: int| it.index() + 1 <= t < it.seq().len() && *it.seq()[t] == i) by {
                    if !out@.contains(i) && i != *x {
                        let t = choose|t: int| it.index() <= t < it.seq().len() && *it.seq()[t] == i;
                        assert(t != it.index());
                    }
                }
            }
            insert_sorted(&mut out, *x);
        }
        out
    }

    /// The checked items, in index order; checked indices past the end are skipped.
    pub fn get_checked_items(&self) -> (r: Vec<&T>)
        ensures
            exists|idx: Seq<usize>|
                {
                    &&& strictly_increasing(idx)
                    &&& forall|i: usize| #[trigger] idx.contains(i) <==> (self.checked_indices@.contains(i) && i < self.items@.len())
                    &&& r@.len() == idx.len()
                    &&& forall|k: int| 0 <= k < idx.len() ==> *r@[k] == self.items@[idx[k] as int]
                },
    {
        let indices = self.get_checked_indices();
        let mut out: Vec<&T> = Vec::new();
        let ghost mut idx: Seq<usize> = Seq::empty();
        let mut k: usize = 0;
        while k < indices.len()
            invariant
                k <= indices@.len(),
                strictly_increasing(indices@),
                forall|i: usize| indices@.contains(i) <==> self.checked_indices@.contains(i),
                strictly_increasing(idx),
                forall|i: usize| #[trigger] idx.contains(i) <==> (indices@.subrange(0, k as int).contains(i) && i < self.items@.len()),
                forall|t: int, u: int| 0 <= t < idx.len() && k <= u < indices@.len() ==> idx[t] < indices@[u],
                out@.len() == idx.len(),
                forall|t: int| 0 <= t < idx.len() ==> *out@[t] == self.items@[idx[t] as int],
            decreases indices@.len() - k,
        {
            let i = indices[k];
            proof {
                let s0 = indices@.subrange(0, k as int);
                let s1 = indices@.subrange(0, k + 1);
                assert(s1 =~= s0.push(i));
                assert forall|j: usize| s1.contains(j) <==> (s0.contains(j) || j == i) by {
                    if s1.contains(j) {
                        let t = choose|t: int| 0 <= t < s1.len() && s1[t] == j;
                        if t < k {
                            assert(s0[t] == j);
                        }
                    }
                    if s0.contains(j) {
                        let t = choose|t: int| 0 <= t < s0.len() && s0[t] == j;
                        assert(s1[t] == j);
                    }
                    if j == i {
                        assert(s1[k as int] == j);
                    }
                }
            }
            if i < self.items.len() {
                out.push(&self.items[i]);
                proof {
                    let old_idx = idx;
                    idx = idx.push(i);
                    assert forall|a: int, b: int| 0 <= a < b < idx.len() implies idx[a] < idx[b] by {
                        if b == idx.len() - 1 {
                            assert(old_idx[a] < indices@[k as int]);
                        } else {
                            assert(idx[a] == old_idx[a] && idx[b] == old_idx[b]);
                        }
                    }
                    assert forall|j: usize| #[trigger] idx.contains(j) <==> (old_idx.contains(j) || j == i) by {
                        if idx.contains(j) {
                            let t = choose|t: int| 0 <= t < idx.len() && idx[t] == j;
                            if t < old_idx.len() {
                                assert(old_idx[t] == j);
                            }
                        }
                        if old_idx.contains(j) {
                            let t = choose|t: int| 0 <= t < old_idx.len() && old_idx[t] == j;
                            assert(idx[t] == j);
                        }
                        if j == i {
                            assert(idx[old_idx.len() as int] == j);
                        }
                    }
                    assert forall|t: int, u: int| 0 <= t < idx.len() && k + 1 <= u < indices@.len() implies idx[t] < indices@[u] by {
                        if t < old_idx.len() {
                            assert(old_idx[t] < indices@[u]);
                        } else {
                            assert(indices@[k as int] < indices@[u]);
                        }
                    }
                }
            }
            k = k + 1;
        }
        proof {
            assert(indices@.subrange(0, indices@.len() as int) =~= indices@);
        }
        out
    }

    pub fn is_empty(&self) -> (r: bool)
        ensures
            r == (self.items@.len() == 0),
    {
        self.items.len() == 0
    }

    pub fn len(&self) -> (r: usize)
        ensures
            r == self.items@.len(),
    {
        self.items.len()
    }

    /// Up and Down move the focus, Space toggles the focused item, `a` toggles
    /// all. Returns whether the key was used.
    pub fn handle_key(&mut self, key: Key) -> (r: bool)
        ensures
            r == (key == Key::Up || key == Key::Down || key == Key::Char(' ') || key == Key::Char('a')),
            final(self).items@ == old(self).items@,
            key == Key::Down || key == Key::Up ==> final(self).checked_indices@ == old(self).checked_indices@,
            key == Key::Down && old(self).items@.len() > 0 ==> final(self).selected_idx == (old(self).selected_idx + 1) % (old(self).items@.len() as int),
            key == Key::Up && old(self).items@.len() > 0 ==> final(self).selected_idx == if old(self).selected_idx > 0 {
                old(self).selected_idx - 1
            } else {
                old(self).items@.len() - 1
            },
            key == Key::Char('a') ==> final(self).checked_indices@ == if old(self).checked_indices@.len() == old(self).items@.len() {
                Set::<usize>::empty()
            } else {
                Set::new(|i: usize| i < old(self).items@.len())
            },
            key == Key::Char(' ') ==> final(self).items@ == old(self).items@ && final(self).checked_indices@ == if old(self).checked_indices@.contains(old(self).selected_idx) {
                old(self).checked_indices@.remove(old(self).selected_idx)
            } else {
                old(self).checked_indices@.insert(old(self).selected_idx)
            },
            !r ==> *final(self) == *old(self),
    {
        match key {
            Key::Up => {
                let n = self.items.len();
                if n > 0 {
                    self.selected_idx = if self.selected_idx > 0 { self.selected_idx - 1 } else { n - 1 };
                }
                true
            },
            Key::Down => {
                let n = self.items.len();
                if n > 0 {
                    let m = self.selected_idx % n;
                    proof {
                        crate::navigation::lemma_wrap_next(self.selected_idx as int, n as int);
                    }
                    self.selected_idx = if m + 1 == n { 0 } else { m + 1 };
                }
                true
            },
            Key::Char(' ') => {
                self.toggle_current();
                true
            },
            Key::Char('a') => {
                self.toggle_all();
                true
            },
            _ => false,
        }
    }
}

impl<T: Clone> Navigable for CheckboxList<T> {
    open spec fn nav_len(&self) -> nat {
        self.items@.len()
    }

    open spec fn nav_selected(&self) -> nat {
        self.selected_idx as nat
    }

    fn len(&self) -> (r: usize) {
        self.items.len()
    }

    fn selected(&self) -> (r: usize) {
        self.selected_idx
    }

    fn set_selected(&mut self, index: usize) {
        self.selected_idx = index;
    }
}

} // verus!
