//! Deferred, thread-safe, one-time initialization of shared values.
//!
//! A [`DelayInit`] pairs a zero-argument initializer with a [`Singleton`]
//! once-cell.  Construction stores the initializer and does no work; the
//! first call of [`DelayInit::force`] runs the initializer exactly once,
//! even across concurrent callers, and caches the result; every call returns
//! a reference to that one cached value.
//!
//! The contracts speak of the stored initializer through `call_requires` and
//! `call_ensures`: every value ever read out of a deferred value satisfies
//! the initializer's postcondition, and when that postcondition admits a
//! single result, all reads observe it.
//!
//! Panic policy: an initializer that panics poisons its cell, and every
//! later access panics too.  An initializer that accesses its own cell
//! deadlocks; that is a caller error, not detected here.

use vstd::prelude::*;

pub mod singleton;

pub use singleton::Singleton;

verus! {

/// A deferred value: a zero-argument initializer bound at construction,
/// run at most once on first access, and a cell caching its result.
#[verifier::reject_recursive_types(T)]
pub struct DelayInit<T: Sync, F = fn() -> T> {
    object: Singleton<T>,
    init: F,
}

impl<T: Sync, F> DelayInit<T, F> {
    /// The initializer bound at construction.
    pub closed spec fn initializer(&self) -> F {
        self.init
    }

    /// Stores `builder` beside an empty cell.  No initialization work
    /// happens here: `builder` is not run until the first
    /// [`DelayInit::force`].
    pub fn new(builder: F) -> (r: Self)
        ensures
            r.initializer() == builder,
    {
        DelayInit { object: Singleton::new(), init: builder }
    }
}

impl<T: Sync, F: Fn() -> T> DelayInit<T, F> {
    /// Reads the deferred value, running the stored initializer first if no
    /// access has happened yet.
    ///
    /// Relies on `spin::Once::call_once`: it runs the given closure only on
    /// the first call on the cell, blocks concurrent callers until that
    /// initializer completes, and returns a reference to the one cached
    /// value, produced by the closure that was run.  The cell is a private
    /// field that only this method fills, and it always hands over the
    /// stored initializer, so the cached value is a result of that
    /// initializer.
    #[verifier::external_body]
    pub fn force(&self) -> (r: &T)
        requires
            call_requires(self.initializer(), ()),
        ensures
            call_ensures(self.initializer(), (), *r),
    {
        self.object.cell.call_once(&self.init)
    }
}

/// Law: all reads of one deferred value agree whenever the initializer's
/// contract admits a single result.  [`DelayInit::force`] ensures of every
/// value it returns that the stored initializer can produce it, so any two
/// reads `a` and `b` observe the same fully built value.
pub proof fn lemma_consistent_reads<T: Sync, F: Fn() -> T>(d: &DelayInit<T, F>, a: T, b: T)
    requires
        call_ensures(d.initializer(), (), a),
        call_ensures(d.initializer(), (), b),
        forall|x: T, y: T|
            call_ensures(d.initializer(), (), x) && call_ensures(d.initializer(), (), y)
                ==> x == y,
    ensures
        a == b,
{
}

} // verus!
