//! A single-slot transfer cell: storage for at most one value, with explicit
//! presence tracking, so that the absent state is observable without
//! constructing a dummy value.

use vstd::prelude::*;

verus! {

/// A slot holding at most one `T`, with an explicit presence flag.
///
/// The flag is kept separately from the payload so that the presence of a
/// value can always be read directly, independently of any layout the payload
/// may have.
pub struct CellOption<T> {
    is_some: bool,
    value: Option<T>,
}

impl<T> CellOption<T> {
    /// The contents of the cell: `Some(v)` when a value is present.
    pub closed spec fn view(&self) -> Option<T> {
        self.value
    }

    /// The presence flag always agrees with the payload.
    pub closed spec fn wf(&self) -> bool {
        self.is_some <==> self.value is Some
    }

    /// An empty cell.
    pub fn new_none() -> (cell: Self)
        ensures
            cell.wf(),
            cell@ is None,
    {
        CellOption { is_some: false, value: None }
    }

    /// A cell holding `value`.
    pub fn new_some(value: T) -> (cell: Self)
        ensures
            cell.wf(),
            cell@ == Some(value),
    {
        CellOption { is_some: true, value: Some(value) }
    }

    /// Empties the cell, returning its previous contents.
    pub fn take(&mut self) -> (prev: Option<T>)
        requires
            old(self).wf(),
        ensures
            final(self).wf(),
            final(self)@ is None,
            prev == old(self)@,
    {
        self.is_some = false;
        self.value.take()
    }

    /// Stores `value`, returning the previous contents.
    pub fn set(&mut self, value: T) -> (prev: Option<T>)
        requires
            old(self).wf(),
        ensures
            final(self).wf(),
            final(self)@ == Some(value),
            prev == old(self)@,
    {
        let prev = self.take();
        self.is_some = true;
        self.value = Some(value);
        prev
    }

    /// Returns `true` if and only if the cell contains a value.
    pub fn is_some(&self) -> (present: bool)
        requires
            self.wf(),
        ensures
            present == (self@ is Some),
    {
        self.is_some
    }
}

impl<T> Default for CellOption<T> {
    /// The default cell is empty.
    fn default() -> (cell: Self)
        ensures
            cell.wf(),
            cell@ is None,
    {
        CellOption::new_none()
    }
}

} // verus!
