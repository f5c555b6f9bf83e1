//! A cell that can be written only once.
use vstd::prelude::*;

verus! {

/// The contents of a write-once cell after a write of `value`: the
/// value is stored only if the cell was empty.
pub open spec fn after_set<T>(contents: Option<T>, value: T) -> Option<T> {
    match contents {
        Some(v) => Some(v),
        None => Some(value),
    }
}

/// A cell whose contents, once set, never change.
pub struct OnceCell<T> {
    inner: Option<T>,
}

impl<T> View for OnceCell<T> {
    type V = Option<T>;

    closed spec fn view(&self) -> Option<T> {
        self.inner
    }
}

impl<T> OnceCell<T> {
    /// Creates a new empty cell.
    pub fn new() -> (c: OnceCell<T>)
        ensures
            c@ == None::<T>,
    {
        OnceCell { inner: None }
    }

    /// The value in the cell, or `None` if the cell is empty.
    pub fn get(&self) -> (r: Option<&T>)
        ensures
            r is Some <==> self@ is Some,
            r matches Some(v) ==> *v == self@->0,
    {
        self.inner.as_ref()
    }

    /// Stores `value` if the cell is empty; otherwise leaves it unchanged.
    pub fn set(&mut self, value: T)
        ensures
            final(self)@ == after_set(old(self)@, value),
    {
        if self.inner.is_none() {
            self.inner = Some(value);
        }
    }
}

/// A cell keeps the first value written to it: after a write to an empty
/// cell, further writes change nothing and a read gives that first value.
pub proof fn lemma_write_once<T>(first: T, later: Seq<T>)
    ensures
        later.fold_left(after_set(None, first), |c: Option<T>, v: T| after_set(c, v)) == Some(first),
    decreases later.len(),
{
    if later.len() > 0 {
        lemma_write_once(first, later.drop_last());
    }
}

} // verus!
