//! The observable-value store: a set of mutable value cells with
//! change notification driven by the watch scheduler.

use vstd::prelude::*;

verus! {

/// Handle to one cell of a [`Store`].
#[derive(Clone, Copy, PartialEq, Eq, Structural, Debug)]
pub struct CellId {
    pub index: usize,
}

/// Owns the mutable observable cells. The view of a store is the
/// sequence of current cell values, indexed by [`CellId`].
pub struct Store<T> {
    values: Vec<T>,
}

impl<T> View for Store<T> {
    type V = Seq<T>;

    closed spec fn view(&self) -> Seq<T> {
        self.values@
    }
}

impl<T> Store<T> {
    /// True when `c` names a cell this store has allocated.
    pub open spec fn contains_cell(&self, c: CellId) -> bool {
        c.index < self@.len()
    }

    pub fn new() -> (s: Self)
        ensures
            s@ == Seq::<T>::empty(),
    {
        Store { values: Vec::new() }
    }

    /// Allocates a cell holding `initial`; no other cell is touched.
    pub fn create(&mut self, initial: T) -> (c: CellId)
        ensures
            final(self)@ == old(self)@.push(initial),
            c.index == old(self)@.len(),
            final(self).contains_cell(c),
    {
        let index = self.values.len();
        self.values.push(initial);
        CellId { index }
    }

    /// Returns the current value of the cell; reads never block and
    /// never change the store.
    pub fn get(&self, c: CellId) -> (v: &T)
        requires
            self.contains_cell(c),
        ensures
            *v == self@[c.index as int],
    {
        &self.values[c.index]
    }

    /// Replaces the value unconditionally: a `set` to an equal value is
    /// a real write, so dependents of the cell still observe it.
    pub fn set(&mut self, c: CellId, value: T)
        requires
            old(self).contains_cell(c),
        ensures
            final(self)@ == old(self)@.update(c.index as int, value),
    {
        self.values[c.index] = value;
    }

    /// Replaces the value with a function of the current one; like
    /// `set`, an update to an equal value is a real write.
    pub fn update<F: Fn(&T) -> T>(&mut self, c: CellId, f: F)
        requires
            old(self).contains_cell(c),
            f.requires((&old(self)@[c.index as int],)),
        ensures
            final(self)@.len() == old(self)@.len(),
            f.ensures((&old(self)@[c.index as int],), final(self)@[c.index as int]),
            forall|j: int|
                0 <= j < old(self)@.len() && j != c.index ==> final(self)@[j] == old(self)@[j],
    {
        let new_value = f(&self.values[c.index]);
        self.values[c.index] = new_value;
    }
}

/// A value written by `set` is exactly what `get` then returns: the
/// store neither coerces the value nor filters writes of equal values.
pub proof fn lemma_set_then_get<T>(cells: Seq<T>, c: CellId, value: T)
    requires
        c.index < cells.len(),
    ensures
        cells.update(c.index as int, value)[c.index as int] == value,
{
}

} // verus!
