//! A write-once cell: a container that starts empty, may be filled exactly
//! once, and thereafter holds its value unchanged for as long as it lives.
//!
//! Because the value, once set, is never removed or replaced, a reference
//! returned by [`LazyCell::borrow`] stays valid for the lifetime of the cell
//! itself, not merely for the duration of a single access.

use vstd::prelude::*;

verus! {

/// A write-once container: created empty, filled at most once, never emptied
/// or overwritten afterwards.
pub struct LazyCell<T> {
    inner: Option<T>,
}

/// What a fill attempt does: a cell that already holds a value keeps it and
/// hands the offered value back as the error; an empty cell accepts it.
pub open spec fn fill_outcome<T>(s: Option<T>, t: T) -> (Option<T>, Result<(), T>) {
    match s {
        Some(_) => (s, Err(t)),
        None => (Some(t), Ok(())),
    }
}

impl<T> View for LazyCell<T> {
    type V = Option<T>;

    closed spec fn view(&self) -> Option<T> {
        self.inner
    }
}

impl<T> LazyCell<T> {
    /// True when the cell holds a value.
    pub open spec fn is_filled(&self) -> bool {
        self@ is Some
    }

    /// Creates a new empty cell.
    pub fn new() -> (c: LazyCell<T>)
        ensures
            c@ == None::<T>,
            !c.is_filled(),
    {
        LazyCell { inner: None }
    }

    /// Puts a value into this empty cell.
    ///
    /// A cell that is already filled must never be filled again: that would
    /// invalidate references already handed out by [`LazyCell::borrow`].
    /// Callers that cannot rule out a second attempt use
    /// [`LazyCell::try_fill`] instead.
    pub fn fill(&mut self, t: T)
        requires
            !old(self).is_filled(),
        ensures
            final(self)@ == Some(t),
            final(self).is_filled(),
    {
        self.inner = Some(t);
    }

    /// Attempts to put a value into this cell.
    ///
    /// On an empty cell the value is stored and `Ok(())` returned; on a cell
    /// that is already filled the contents stay untouched and the rejected
    /// value is handed back to the caller as `Err`.
    pub fn try_fill(&mut self, t: T) -> (r: Result<(), T>)
        ensures
            (final(self)@, r) == fill_outcome(old(self)@, t),
            !old(self).is_filled() ==> final(self)@ == Some(t) && r == Ok::<(), T>(()),
            old(self).is_filled() ==> final(self)@ == old(self)@ && r == Err::<(), T>(t),
    {
        if self.inner.is_some() {
            Err(t)
        } else {
            self.inner = Some(t);
            Ok(())
        }
    }

    /// Sets the contents of this empty cell directly.
    ///
    /// This is the adapter-facing operation the deserialization bridge uses
    /// on a freshly constructed cell; ordinary callers fill through
    /// [`LazyCell::fill`] or [`LazyCell::try_fill`].
    pub fn replace(&mut self, t: T)
        requires
            !old(self).is_filled(),
        ensures
            final(self)@ == Some(t),
    {
        self.inner = Some(t);
    }

    /// Tests whether this cell has been previously filled.
    pub fn filled(&self) -> (r: bool)
        ensures
            r == self.is_filled(),
    {
        self.inner.is_some()
    }

    /// Borrows the contents of this cell for the lifetime of the cell itself.
    ///
    /// Returns `Some` if the cell has been filled and `None` otherwise. The
    /// returned reference stays valid for as long as the cell lives: once
    /// filled, the contents are never removed or replaced, so no later
    /// operation can invalidate it.
    pub fn borrow(&self) -> (r: Option<&T>)
        ensures
            r is Some <==> self.is_filled(),
            r matches Some(v) ==> self@ == Some(*v),
    {
        self.inner.as_ref()
    }

    /// Consumes this cell, yielding the contained value if there is one.
    pub fn into_inner(self) -> (r: Option<T>)
        ensures
            r == self@,
    {
        self.inner
    }

    /// Builds a cell directly from an optional value, as the deserialization
    /// bridge does: an absent value gives an empty cell, a present value a
    /// cell filled with it.
    pub fn from_option(opt: Option<T>) -> (c: LazyCell<T>)
        ensures
            c@ == opt,
    {
        match opt {
            Some(t) => {
                let mut c = LazyCell::new();
                c.replace(t);
                c
            },
            None => LazyCell::new(),
        }
    }
}

/// Single fill: on a cell already filled with `v`, a later fill attempt with
/// `v2` is rejected, hands `v2` back, and the contents remain `v`.
pub proof fn lemma_single_fill<T>(c: LazyCell<T>, v: T, v2: T)
    requires
        c@ == Some(v),
    ensures
        fill_outcome(c@, v2) == (Some(v), Err::<(), T>(v2)),
{
}

/// Monotonic visibility: once a cell is filled it stays filled, with the same
/// contents, whatever value a later fill attempt offers.
pub proof fn lemma_monotonic_visibility<T>(c: LazyCell<T>, t: T)
    requires
        c.is_filled(),
    ensures
        fill_outcome(c@, t).0 == c@,
        fill_outcome(c@, t).0 is Some,
{
}

/// Round trip: a cell rebuilt from the optional value that another cell
/// serializes to (its contents, as `borrow` and `into_inner` expose them and
/// `from_option` stores them) is empty exactly when the original was, and
/// otherwise holds an equal value.
pub proof fn lemma_round_trip<T>(c: LazyCell<T>, rebuilt: LazyCell<T>)
    requires
        rebuilt@ == c@,
    ensures
        !c.is_filled() ==> !rebuilt.is_filled(),
        c.is_filled() ==> rebuilt.is_filled() && rebuilt@->0 == c@->0,
{
}

} // verus!
