//! A cell that keeps a value in memory and writes it back after changes.
//!
//! The cell decides; it does not touch storage or locks itself. Whoever runs it
//! reads the stored bytes before opening the cell, holds the lock while a write
//! scope lasts, and carries out the flush that the end of a scope may ask for.

use vstd::prelude::*;

verus! {

/// Whether `value` is what a cell opens with: the stored value where reading
/// and parsing both succeed, and otherwise what the builder makes.
pub open spec fn opens_with<T, E, P: FnOnce(Vec<u8>) -> Option<T>, F: FnOnce() -> T>(
    read: Result<Vec<u8>, E>,
    parse: P,
    item_builder: F,
    value: T,
) -> bool {
    match read {
        Ok(data) => parse.ensures((data,), Some(value)) || (parse.ensures((data,), None)
            && item_builder.ensures((), value)),
        Err(_) => item_builder.ensures((), value),
    }
}

/// How a write scope has been used so far.
pub struct Scope {
    pub dirty: bool,
}

impl Scope {
    /// A scope that has just been opened.
    pub open spec fn opened() -> Scope {
        Scope { dirty: false }
    }

    /// The scope after the value was borrowed for reading.
    pub open spec fn observed(self) -> Scope {
        self
    }

    /// The scope after the value was borrowed for writing, whether or not
    /// anything was written.
    pub open spec fn touched(self) -> Scope {
        Scope { dirty: true }
    }

    /// Whether the end of the scope asks for a flush.
    pub open spec fn flush_due(self) -> bool {
        self.dirty
    }
}

/// A value kept at a path.
pub struct RwSave<T> {
    file_path: String,
    item: T,
}

/// Exclusive access to a value for the length of one scope. `G` is whatever
/// stands for the access: a mutable borrow, or the guard of a lock.
pub struct RwSaveWriteGuard<'a, G> {
    path: &'a str,
    dirty: bool,
    guard: Option<G>,
}

/// The order to write what `guard` gives access to, as it now is, to `path`.
#[derive(Debug, PartialEq, Eq)]
pub struct Flush<G> {
    pub path: String,
    pub guard: G,
}

impl<T> RwSave<T> {
    /// The value in the cell.
    pub closed spec fn value(&self) -> T {
        self.item
    }

    /// The path the value is kept at.
    pub closed spec fn path(&self) -> Seq<char> {
        self.file_path@
    }

    /// Opens the cell for `file_path` from the outcome `read` of reading that
    /// file. Stored bytes that `parse` accepts give the value; a failed read or
    /// parse gives the value that `item_builder` makes. Opening never fails.
    pub fn new<E, P: FnOnce(Vec<u8>) -> Option<T>, F: FnOnce() -> T>(
        file_path: String,
        read: Result<Vec<u8>, E>,
        parse: P,
        item_builder: F,
    ) -> (cell: Self)
        requires
            read is Err ==> item_builder.requires(()),
            read matches Ok(data) ==> parse.requires((data,)) && (parse.ensures((data,), None)
                ==> item_builder.requires(())),
        ensures
            cell.path() == file_path@,
            opens_with(read, parse, item_builder, cell.value()),
    {
        let stored: Option<T> = match read {
            Ok(data) => parse(data),
            Err(_) => None,
        };
        let item: T = match stored {
            Some(value) => value,
            None => item_builder(),
        };
        RwSave { file_path, item }
    }

    /// Shared access to the value. No scope is opened, so nothing is flushed.
    pub fn read(&self) -> (value: &T)
        ensures
            *value == self.value(),
    {
        &self.item
    }

    /// Opens a write scope on the value.
    pub fn write(&mut self) -> (scope: RwSaveWriteGuard<'_, &mut T>)
        ensures
            scope.holds(),
            scope.scope() == Scope::opened(),
            scope.path() == old(self).path(),
            *scope.held() == old(self).value(),
            final(self).value() == *final(scope.held()),
            final(self).path() == old(self).path(),
    {
        RwSaveWriteGuard { path: self.file_path.as_str(), dirty: false, guard: Some(&mut self.item) }
    }

    /// The path the value is kept at.
    pub fn file_path(&self) -> (path: &str)
        ensures
            path@ == self.path(),
    {
        self.file_path.as_str()
    }

    /// Takes the cell apart into its path and its value.
    pub fn into_parts(self) -> (parts: (String, T))
        ensures
            parts.0@ == self.path(),
            parts.1 == self.value(),
    {
        (self.file_path, self.item)
    }
}

impl<'a, G> RwSaveWriteGuard<'a, G> {
    /// Whether the scope still holds its access. It does until a flush takes it.
    pub closed spec fn holds(&self) -> bool {
        self.guard is Some
    }

    /// The access that the scope holds.
    pub closed spec fn held(&self) -> G {
        self.guard->0
    }

    /// How the scope has been used so far.
    pub closed spec fn scope(&self) -> Scope {
        Scope { dirty: self.dirty }
    }

    /// The path that a flush of this scope writes to.
    pub closed spec fn path(&self) -> Seq<char> {
        self.path@
    }

    /// Opens a write scope for the value kept at `path`, around the access `guard`.
    pub fn new(path: &'a str, guard: G) -> (scope: Self)
        ensures
            scope.holds(),
            scope.held() == guard,
            scope.scope() == Scope::opened(),
            scope.path() == path@,
    {
        RwSaveWriteGuard { path, dirty: false, guard: Some(guard) }
    }

    /// Borrows the access for reading. The scope stays as clean as it was.
    pub fn deref(&self) -> (access: &G)
        requires
            self.holds(),
        ensures
            *access == self.held(),
    {
        self.guard.as_ref().unwrap()
    }

    /// Borrows the access for writing. From here on the scope is dirty, whether
    /// or not the borrower changes anything.
    pub fn deref_mut(&mut self) -> (access: &mut G)
        requires
            old(self).holds(),
        ensures
            *access == old(self).held(),
            final(self).holds(),
            final(self).held() == *final(access),
            final(self).scope() == old(self).scope().touched(),
            final(self).path() == old(self).path(),
    {
        self.dirty = true;
        self.guard.as_mut().unwrap()
    }

    /// Whether the scope still holds its access.
    pub fn is_held(&self) -> (held: bool)
        ensures
            held == self.holds(),
    {
        self.guard.is_some()
    }

    /// Whether the end of the scope will ask for a flush.
    pub fn is_dirty(&self) -> (dirty: bool)
        ensures
            dirty == self.scope().flush_due(),
    {
        self.dirty
    }

    /// Ends the scope. A dirty scope gives up its access in a flush order; a
    /// clean scope keeps it and orders nothing.
    pub fn release(&mut self) -> (flush: Option<Flush<G>>)
        requires
            old(self).holds(),
        ensures
            flush is Some <==> old(self).scope().flush_due(),
            flush matches Some(order) ==> order.guard == old(self).held() && order.path@ == old(
                self,
            ).path(),
            final(self).holds() <==> flush is None,
            flush is None ==> *final(self) == *old(self),
    {
        if !self.dirty {
            return None;
        }
        let guard: G = self.guard.take().unwrap();
        Some(Flush { path: self.path.to_owned(), guard })
    }
}

/// A cell opened from stored bytes that can only be read as `value` holds
/// `value`: what was written comes back, as long as it can be loaded.
pub proof fn lemma_reopened_value<T, E, P: FnOnce(Vec<u8>) -> Option<T>, F: FnOnce() -> T>(
    data: Vec<u8>,
    parse: P,
    item_builder: F,
    value: T,
    reopened: T,
)
    requires
        forall|parsed: Option<T>| parse.ensures((data,), parsed) ==> parsed == Some(value),
        opens_with(Ok::<Vec<u8>, E>(data), parse, item_builder, reopened),
    ensures
        reopened == value,
{
}

/// One use of the value inside a write scope.
#[derive(Clone, Copy, PartialEq, Eq, Structural, Debug)]
pub enum Access {
    Shared,
    Exclusive,
}

/// The scope after a run of uses, starting from a scope that was just opened.
pub open spec fn scope_after(uses: Seq<Access>) -> Scope
    decreases uses.len(),
{
    if uses.len() == 0 {
        Scope::opened()
    } else {
        match uses.last() {
            Access::Shared => scope_after(uses.drop_last()).observed(),
            Access::Exclusive => scope_after(uses.drop_last()).touched(),
        }
    }
}

/// A write scope ends in a flush if and only if the value was borrowed for
/// writing at least once; borrowing it for reading alone never causes one.
pub proof fn lemma_flush_iff_touched(uses: Seq<Access>)
    ensures
        scope_after(uses).flush_due() <==> uses.contains(Access::Exclusive),
    decreases uses.len(),
{
    if uses.len() > 0 {
        let earlier = uses.drop_last();
        lemma_flush_iff_touched(earlier);
        if uses.last() == Access::Exclusive {
            assert(uses[uses.len() - 1] == Access::Exclusive);
        } else {
            if uses.contains(Access::Exclusive) {
                let i = choose|i: int| 0 <= i < uses.len() && uses[i] == Access::Exclusive;
                assert(earlier[i] == Access::Exclusive);
            }
            if earlier.contains(Access::Exclusive) {
                let i = choose|i: int| 0 <= i < earlier.len() && earlier[i] == Access::Exclusive;
                assert(uses[i] == Access::Exclusive);
            }
        }
    }
}

} // verus!
