//! The lazy cell.

use vstd::prelude::*;

use crate::state::LazyInner;

verus! {

/// A lazy cell for single-threaded use.
///
/// The first access changes the cell's state, so every access takes the
/// cell by exclusive reference. Each contract can then say how an access
/// changes the cell, a producer can never reach its own cell while it runs,
/// and no two threads can change the cell at once: the cell holds no
/// interior mutability, and a shared reference to it only reads.
pub struct UnsyncLazy<T, F> {
    inner: LazyInner<T, F>,
}

impl<T, F> View for UnsyncLazy<T, F> {
    type V = LazyInner<T, F>;

    closed spec fn view(&self) -> LazyInner<T, F> {
        self.inner
    }
}

impl<T, F: FnOnce() -> T> UnsyncLazy<T, F> {
    /// The cell is waiting for its producer or holds its value: every
    /// operation leaves it so. (A producer that panics would leave the
    /// placeholder behind, which is why this is not a type invariant.)
    pub open spec fn wf(&self) -> bool {
        !(self@ is Empty)
    }

    /// Makes a cell that will run `f` on its first access; `f` is not run here.
    pub fn from(f: F) -> (r: Self)
        ensures
            r@ == LazyInner::<T, F>::Uninit(f),
            r.wf(),
    {
        UnsyncLazy { inner: LazyInner::Uninit(f) }
    }

    /// Returns the value, running the producer first if it has not run yet.
    pub fn read(&mut self) -> (r: &T)
        requires
            old(self)@.can_force(),
        ensures
            old(self)@.forces_to(final(self)@),
            final(self)@ == LazyInner::<T, F>::Init(*r),
            final(self).wf(),
    {
        self.inner.force();
        match &self.inner {
            LazyInner::Init(v) => v,
            _ => vstd::pervasive::unreached(),
        }
    }

    /// Returns the value for update, running the producer first if it has
    /// not run yet. What the caller writes through the result is what the
    /// cell holds afterwards.
    pub fn read_mut(&mut self) -> (r: &mut T)
        requires
            old(self)@.can_force(),
        ensures
            old(self)@.forces_to(LazyInner::Init(*r)),
            final(self)@ == LazyInner::<T, F>::Init(*final(r)),
            final(self).wf(),
    {
        self.inner.force();
        match &mut self.inner {
            LazyInner::Init(v) => v,
            _ => vstd::pervasive::unreached(),
        }
    }
}

impl<T: core::fmt::Debug, F> UnsyncLazy<T, F> {
    /// Renders the cell for diagnostics without running the producer: the
    /// value's own debug text once produced, `<uninitialized>` before.
    pub fn debug_string(&self) -> (r: String)
        ensures
            self@ is Uninit ==> r@ == "<uninitialized>"@,
    {
        self.inner.debug_string()
    }
}

} // verus!
