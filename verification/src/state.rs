//! Navigation state: which row of the list is selected, with cyclic
//! next/previous movement and explicit deselection.

use vstd::prelude::*;

verus! {

/// Selection state over a list of `length` rows.
///
/// `inner` is the currently highlighted row, if any. The list itself is held
/// elsewhere; this type only tracks the index and the fixed row count.
pub struct State {
    pub length: usize,
    pub inner: Option<usize>,
}

/// One step of cyclic forward movement: from nothing to row 0, otherwise to
/// the next row, wrapping past the end.
pub open spec fn next_sel(sel: Option<usize>, length: usize) -> Option<usize> {
    match sel {
        None => Some(0usize),
        Some(i) => Some((((i + 1) as int % length as int)) as usize),
    }
}

/// One step of cyclic backward movement: from nothing to the last row,
/// otherwise to the previous row, wrapping past the start.
pub open spec fn previous_sel(sel: Option<usize>, length: usize) -> Option<usize> {
    match sel {
        None => Some((length - 1) as usize),
        Some(i) => if i == 0 {
            Some((length - 1) as usize)
        } else {
            Some((i - 1) as usize)
        },
    }
}

/// `next_sel` iterated `n` times.
pub open spec fn iterated_next(sel: Option<usize>, length: usize, n: nat) -> Option<usize>
    decreases n,
{
    if n == 0 {
        sel
    } else {
        next_sel(iterated_next(sel, length, (n - 1) as nat), length)
    }
}

impl State {
    /// A state is valid when the list is non-empty and any selected index is
    /// a real row.
    pub open spec fn inv(self) -> bool {
        &&& 1 <= self.length
        &&& self.inner is Some ==> self.inner->0 < self.length
    }

    pub fn with_length(length: usize) -> (s: Self)
        requires
            1 <= length,
        ensures
            s.length == length,
            s.inner is None,
            s.inv(),
    {
        State { length, inner: None }
    }

    pub fn next(&mut self)
        requires
            old(self).inv(),
        ensures
            final(self).inv(),
            final(self).length == old(self).length,
            final(self).inner == next_sel(old(self).inner, old(self).length),
    {
        let new = match self.inner {
            None => 0,
            Some(index) => (index + 1) % self.length,
        };
        self.inner = Some(new);
    }

    pub fn previous(&mut self)
        requires
            old(self).inv(),
        ensures
            final(self).inv(),
            final(self).length == old(self).length,
            final(self).inner == previous_sel(old(self).inner, old(self).length),
    {
        let last = self.length - 1;
        let new = match self.inner {
            None => last,
            Some(index) => if index == 0 {
                last
            } else {
                index - 1
            },
        };
        self.inner = Some(new);
    }

    pub fn unselect(&mut self)
        ensures
            final(self).length == old(self).length,
            final(self).inner is None,
            old(self).inv() ==> final(self).inv(),
    {
        self.inner = None;
    }

    pub fn selected(&self) -> (r: Option<usize>)
        ensures
            r == self.inner,
    {
        self.inner
    }
}

/// Law: after deselecting, the first forward step always lands on row 0,
/// whatever was selected before.
pub proof fn lemma_unselect_then_next(s: State)
    requires
        s.inv(),
    ensures
        next_sel(None, s.length) == Some(0usize),
{
}

/// Law: from row 0, one backward step lands on the last row.
pub proof fn lemma_previous_from_first(s: State)
    requires
        s.inv(),
        s.inner == Some(0usize),
    ensures
        previous_sel(s.inner, s.length) == Some((s.length - 1) as usize),
{
}

/// Law: starting from no selection, `n` forward steps (for `n >= 1`) land on
/// row `(n - 1) % length`. The first step selects row 0 and each further step
/// advances by one, cyclically; in particular `length + 1` steps return to
/// row 0, and on a single-row list every step lands on row 0.
pub proof fn lemma_iterated_next_from_unselected(length: usize, n: nat)
    requires
        1 <= length,
        1 <= n,
    ensures
        iterated_next(None, length, n) == Some((((n - 1) as int % length as int)) as usize),
    decreases n,
{
    if n == 1 {
        assert(iterated_next(None, length, 1) == next_sel(
            iterated_next(None, length, 0),
            length,
        ));
        assert(next_sel(None, length) == Some(0usize));
        vstd::arithmetic::div_mod::lemma_small_mod(0, length as nat);
    } else {
        lemma_iterated_next_from_unselected(length, (n - 1) as nat);
        let prev = (((n - 2) as int % length as int)) as usize;
        assert(iterated_next(None, length, n) == next_sel(Some(prev), length));
        assert((prev + 1) as int % length as int == (n - 1) as int % length as int) by {
            let len = length as int;
            vstd::arithmetic::div_mod::lemma_mod_pos_bound((n - 2) as int, len);
            vstd::arithmetic::div_mod::lemma_add_mod_noop((n - 2) as int, 1, len);
            vstd::arithmetic::div_mod::lemma_mod_twice((n - 2) as int, len);
            if length == 1 {
                vstd::arithmetic::div_mod::lemma_mod_self_0(len);
                vstd::arithmetic::div_mod::lemma_mod_pos_bound((n - 1) as int, len);
                vstd::arithmetic::div_mod::lemma_mod_pos_bound(prev as int + 1, len);
            } else {
                vstd::arithmetic::div_mod::lemma_small_mod(1, length as nat);
            }
        }
    }
}

} // verus!
