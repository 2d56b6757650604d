//! The state machine behind a lazy cell.

use vstd::prelude::*;

verus! {

/// The state of a lazy cell.
///
/// `Empty` only stands in the slot while the producer runs; no operation
/// returns with the state `Empty`.
pub enum LazyInner<T, F> {
    Init(T),
    Uninit(F),
    Empty,
}

impl<T, F: FnOnce() -> T> LazyInner<T, F> {
    /// The producer may be run from this state: the state is not the
    /// placeholder, and a waiting producer accepts being called.
    pub open spec fn can_force(self) -> bool {
        match self {
            LazyInner::Init(_) => true,
            LazyInner::Uninit(f) => f.requires(()),
            LazyInner::Empty => false,
        }
    }

    /// `next` is a state that forcing `self` may leave: a waiting producer
    /// has been replaced by one of its possible results, and a produced value
    /// is kept as it is.
    pub open spec fn forces_to(self, next: Self) -> bool {
        match self {
            LazyInner::Init(_) => next == self,
            LazyInner::Uninit(f) => match next {
                LazyInner::Init(v) => f.ensures((), v),
                _ => false,
            },
            LazyInner::Empty => false,
        }
    }

    /// `next` is a state that one access may leave behind `self`: the access
    /// forced the cell, and the caller may then have written a new value
    /// through exclusive access.
    pub open spec fn accesses_to(self, next: Self) -> bool {
        &&& exists|v: T| #[trigger] self.forces_to(LazyInner::Init(v))
        &&& next is Init
    }

    /// Runs the producer if it has not run yet, and stores its result.
    pub fn force(&mut self)
        requires
            old(self).can_force(),
        ensures
            old(self).forces_to(*final(self)),
    {
        let mut prev = LazyInner::Empty;
        core::mem::swap(self, &mut prev);
        let next = match prev {
            LazyInner::Uninit(f) => LazyInner::Init(f()),
            LazyInner::Init(v) => LazyInner::Init(v),
            LazyInner::Empty => vstd::pervasive::unreached(),
        };
        *self = next;
    }
}

/// How many steps of `states` replace a waiting producer by a value, that is
/// how many times the producer runs along that sequence of states.
pub open spec fn producer_runs<T, F>(states: Seq<LazyInner<T, F>>) -> nat
    decreases states.len(),
{
    if states.len() < 2 {
        0
    } else {
        let here: nat = if states[0] is Uninit && states[1] is Init { 1 } else { 0 };
        here + producer_runs(states.drop_first())
    }
}

/// Relies on `format!("{:?}", ..)`, that is on the `Debug` impl of `T`,
/// for the text of a produced value. That text is the impl's own choice, so
/// nothing is stated of it.
#[verifier::external_body]
fn debug_text<T: core::fmt::Debug>(v: &T) -> String {
    format!("{:?}", v)
}

impl<T: core::fmt::Debug, F> LazyInner<T, F> {
    /// Renders the state for diagnostics without running the producer: the
    /// value's own debug text once produced, a marker before.
    pub fn debug_string(&self) -> (r: String)
        ensures
            self is Uninit ==> r@ == "<uninitialized>"@,
            self is Empty ==> r@ == "<empty>"@,
    {
        match self {
            LazyInner::Init(v) => debug_text(v),
            LazyInner::Uninit(_) => "<uninitialized>".to_owned(),
            LazyInner::Empty => "<empty>".to_owned(),
        }
    }
}

} // verus!
