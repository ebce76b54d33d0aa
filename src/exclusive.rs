//! `ExclusiveCell`: one value behind a lock, reached only through a scoped
//! operation that has sole mutable access to it.

use vstd::prelude::*;

verus! {

/// Holds one value of type `T` and grants one operation at a time mutable
/// access to it.
///
/// `CHECKED` selects at compile time whether the cell keeps a busy flag
/// around each access (`true`) or carries no such bookkeeping (`false`).
pub struct ExclusiveCell<T, const CHECKED: bool> {
    lock: spin::Mutex<()>,
    inner: T,
    in_use: bool,
}

impl<T, const CHECKED: bool> ExclusiveCell<T, CHECKED> {
    /// Well-formed: the busy flag is clear, so no access is in progress.
    /// Every method keeps this true between calls.
    pub closed spec fn wf(&self) -> bool {
        !self.in_use
    }

    /// The value the cell holds.
    pub closed spec fn value(&self) -> T {
        self.inner
    }

    /// Builds a cell holding `value`, with no access in progress.
    pub fn new(value: T) -> (r: Self)
        ensures
            r.value() == value,
            r.wf(),
    {
        ExclusiveCell { lock: spin::Mutex::new(()), inner: value, in_use: false }
    }

    /// Whether an access is in progress.
    pub fn is_in_use(&self) -> (r: bool)
        ensures
            r == !self.wf(),
    {
        self.in_use
    }

    /// Runs `operation` on the held value while holding the lock, and returns
    /// what `operation` returned.
    ///
    /// The cell is borrowed mutably for the whole call, so `operation` cannot
    /// reach this cell again: the busy flag is proved clear on entry, which is
    /// the re-entrancy check made once and for all. With `CHECKED` the flag is
    /// also set for the duration of `operation` and cleared afterwards.
    pub fn with_exclusive_access<F, U>(&mut self, operation: F) -> (r: U)
        where
            F: FnOnce(&mut T) -> U,
        requires
            old(self).wf(),
            forall|m: &mut T| *m == old(self).value() ==> operation.requires((m,)),
        ensures
            exists|m: &mut T|
                *m == old(self).value() && *final(m) == final(self).value()
                    && operation.ensures((m,), r),
            final(self).wf(),
    {
        let _guard = self.lock.lock();
        if CHECKED {
            self.in_use = true;
        }
        let result = operation(&mut self.inner);
        if CHECKED {
            self.in_use = false;
        }
        result
    }
}

impl<T: Default, const CHECKED: bool> Default for ExclusiveCell<T, CHECKED> {
    /// A cell holding `T`'s default value, with no access in progress.
    fn default() -> (r: Self)
        ensures
            r.wf(),
            call_ensures(T::default, (), r.value()),
    {
        ExclusiveCell::new(T::default())
    }
}

} // verus!
