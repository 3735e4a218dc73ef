//! A single-value cell that hands its content in and out by move.
//!
//! The cell backs the thread-scoped failure slot: a place where at most one
//! value sits, where storing a new value displaces the old one, and where
//! reading drains the slot.

use vstd::prelude::*;

verus! {

/// A cell holding at most one `T`, moved in and out whole.
#[derive(Clone)]
pub struct MoveCell<T> {
    inner: Option<T>,
}

impl<T> Default for MoveCell<T> {
    /// The default cell is empty.
    fn default() -> (r: MoveCell<T>)
        ensures
            r@ is None,
    {
        MoveCell { inner: None }
    }
}

impl<T> View for MoveCell<T> {
    type V = Option<T>;

    closed spec fn view(&self) -> Option<T> {
        self.inner
    }
}

impl<T> MoveCell<T> {
    /// An empty cell.
    pub fn new() -> (r: MoveCell<T>)
        ensures
            r@ is None,
    {
        Self::with_opt(None)
    }

    /// A cell already holding `val`.
    pub fn with_val(val: T) -> (r: MoveCell<T>)
        ensures
            r@ == Some(val),
    {
        Self::with_opt(Some(val))
    }

    /// A cell holding exactly the content of `opt`.
    pub fn with_opt(opt: Option<T>) -> (r: MoveCell<T>)
        ensures
            r@ == opt,
    {
        MoveCell { inner: opt }
    }

    /// Drains the cell, returning whatever it held.
    pub fn take(&mut self) -> (r: Option<T>)
        ensures
            r == old(self)@,
            final(self)@ is None,
    {
        self.inner.take()
    }

    /// Stores `val`, returning the displaced content. The most recent value
    /// always wins.
    pub fn set(&mut self, val: T) -> (r: Option<T>)
        ensures
            final(self)@ == Some(val),
            r == old(self)@,
    {
        let displaced = self.inner.take();
        self.inner = Some(val);
        displaced
    }

    /// Whether the cell currently holds a value.
    pub fn is_set(&self) -> (r: bool)
        ensures
            r == (self@ is Some),
    {
        self.inner.is_some()
    }

    /// A mutable window onto the cell's content.
    pub fn mut_ref(&mut self) -> (r: &mut Option<T>)
        ensures
            *r == old(self)@,
            final(self)@ == *final(r),
    {
        &mut self.inner
    }

    /// Runs `mut_fn` over the held value, if any: the value leaves the
    /// cell, `mut_fn` turns it into its replacement and a result, the
    /// replacement is stored back and the result returned. An empty cell
    /// stays empty and yields nothing.
    pub fn with_mut_ref<R, F: FnOnce(T) -> (T, R)>(&mut self, mut_fn: F) -> (r: Option<R>)
        requires
            forall|v: T| old(self)@ == Some(v) ==> call_requires(mut_fn, (v,)),
        ensures
            old(self)@ is None ==> final(self)@ is None && r is None,
            old(self)@ matches Some(v) ==> exists|p: (T, R)|
                call_ensures(mut_fn, (v,), p) && final(self)@ == Some(p.0) && r == Some(p.1),
    {
        match self.take() {
            None => None,
            Some(val) => {
                let (replacement, ret) = mut_fn(val);
                let _ = self.set(replacement);
                Some(ret)
            },
        }
    }

    /// Stores `val` only when the cell is empty; a cell already holding a
    /// value keeps it and hands `val` back.
    pub fn set_if_unset(&mut self, val: T) -> (r: Option<T>)
        ensures
            old(self)@ is Some ==> final(self)@ == old(self)@ && r == Some(val),
            old(self)@ is None ==> final(self)@ == Some(val) && r is None,
    {
        if self.is_set() {
            Some(val)
        } else {
            self.set(val)
        }
    }
}

} // verus!
