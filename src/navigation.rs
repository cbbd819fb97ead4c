//! Wrapping list selection shared by the screens and list widgets.
use vstd::prelude::*;

verus! {

/// A list with one selected position that can be moved with wrapping.
///
/// Implementors give the length, the selected index and a setter; moving
/// forward and backward, to the first and to the last come with it.
pub trait Navigable {
    /// Number of items, as the implementor defines it.
    open spec fn nav_len(&self) -> nat {
        vstd::pervasive::arbitrary()
    }

    /// The selected index, as the implementor defines it.
    open spec fn nav_selected(&self) -> nat {
        vstd::pervasive::arbitrary()
    }

    fn len(&self) -> (r: usize)
        ensures
            r == self.nav_len(),
    ;

    fn selected(&self) -> (r: usize)
        ensures
            r == self.nav_selected(),
    ;

    fn set_selected(&mut self, index: usize)
        ensures
            final(self).nav_selected() == index,
            final(self).nav_len() == old(self).nav_len(),
    ;

    fn is_empty(&self) -> (r: bool)
        ensures
            r == (self.nav_len() == 0),
    {
        self.len() == 0
    }

    /// Moves to the following item, from the last back to the first.
    fn next(&mut self)
        ensures
            final(self).nav_len() == old(self).nav_len(),
            old(self).nav_len() > 0 ==> final(self).nav_selected() == (old(self).nav_selected() + 1) % old(self).nav_len(),
            old(self).nav_len() == 0 ==> final(self).nav_selected() == old(self).nav_selected(),
    {
        let n = self.len();
        if n > 0 {
            let current = self.selected();
            let r = current % n;
            let next = if r + 1 == n { 0 } else { r + 1 };
            proof {
                lemma_wrap_next(current as int, n as int);
            }
            self.set_selected(next);
        }
    }

    /// Moves to the preceding item, from the first round to the last.
    fn previous(&mut self)
        ensures
            final(self).nav_len() == old(self).nav_len(),
            old(self).nav_len() > 0 ==> final(self).nav_selected() == if old(self).nav_selected() > 0 {
                (old(self).nav_selected() - 1) as nat
            } else {
                (old(self).nav_len() - 1) as nat
            },
            old(self).nav_len() == 0 ==> final(self).nav_selected() == old(self).nav_selected(),
    {
        let n = self.len();
        if n > 0 {
            let current = self.selected();
            if current > 0 {
                self.set_selected(current - 1);
            } else {
                self.set_selected(n - 1);
            }
        }
    }

    /// Moves to the first item, if there is one.
    fn first(&mut self)
        ensures
            final(self).nav_len() == old(self).nav_len(),
            old(self).nav_len() > 0 ==> final(self).nav_selected() == 0,
            old(self).nav_len() == 0 ==> final(self).nav_selected() == old(self).nav_selected(),
    {
        if self.len() > 0 {
            self.set_selected(0);
        }
    }

    /// Moves to the last item, if there is one.
    fn last(&mut self)
        ensures
            final(self).nav_len() == old(self).nav_len(),
            old(self).nav_len() > 0 ==> final(self).nav_selected() == old(self).nav_len() - 1,
            old(self).nav_len() == 0 ==> final(self).nav_selected() == old(self).nav_selected(),
    {
        let n = self.len();
        if n > 0 {
            self.set_selected(n - 1);
        }
    }
}

/// Stepping forward from `c` in a list of `n` items lands on `(c + 1) % n`.
pub proof fn lemma_wrap_next(c: int, n: int)
    requires
        0 <= c,
        0 < n,
    ensures
        (if c % n + 1 == n { 0 } else { c % n + 1 }) == (c + 1) % n,
{
    vstd::arithmetic::div_mod::lemma_add_mod_noop(c, 1, n);
    vstd::arithmetic::div_mod::lemma_mod_bound(c, n);
    if n == 1 {
        vstd::arithmetic::div_mod::lemma_mod_self_0(1);
        assert((c % n + 1) % n == 0) by (nonlinear_arith)
            requires
                n == 1,
        ;
    } else {
        vstd::arithmetic::div_mod::lemma_small_mod(1, n as nat);
        if c % n + 1 == n {
            vstd::arithmetic::div_mod::lemma_mod_self_0(n);
        } else {
            vstd::arithmetic::div_mod::lemma_small_mod((c % n + 1) as nat, n as nat);
        }
    }
}

} // verus!
