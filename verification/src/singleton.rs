//! The once-only concurrent initialization primitive.
//!
//! A [`Singleton`] wraps a `spin::Once` cell: it holds no value until the
//! first call of [`Singleton::get_instance`], which runs its closure at most
//! once across any number of concurrent callers and caches the result for the
//! life of the cell.  Late-arriving callers block (spin-wait) until the
//! winning initializer completes, then all callers receive a reference to the
//! one cached value.
//!
//! Panic policy: if an initializer panics, the cell is poisoned and every
//! later access panics as well; the cell is never retried.

use vstd::prelude::*;

verus! {

#[verifier::external_type_specification]
#[verifier::external_body]
#[verifier::reject_recursive_types(T)]
#[verifier::reject_recursive_types(R)]
pub struct ExOnce<T, R>(spin::once::Once<T, R>);

#[verifier::external_type_specification]
#[verifier::external_body]
pub struct ExSpin(spin::relax::Spin);

/// A cell holding at most one value of `T`, filled by whichever closure wins
/// the first `get_instance` race and read-only ever after.
#[verifier::reject_recursive_types(T)]
pub struct Singleton<T: Sync> {
    pub(crate) cell: spin::once::Once<T>,
}

impl<T: Sync> Singleton<T> {
    /// Relies on `spin::Once::new`: it returns a cell that holds no value and
    /// has never run an initializer.
    #[verifier::external_body]
    pub fn new() -> Singleton<T> {
        Singleton { cell: spin::once::Once::new() }
    }

    /// Relies on `spin::Once::call_once`: it runs `f` only if this is the
    /// first call on the cell, blocks while another initializer is running,
    /// and returns a reference to the one cached value.
    ///
    /// That value came from whichever closure was passed to the *first* call
    /// on this cell, which need not be this `f`; different calls may pass
    /// different closures, so nothing sound can be promised about the result
    /// here.  [`crate::DelayInit`] pairs a cell with a single stored
    /// initializer and promises more.
    #[verifier::external_body]
    pub fn get_instance<F: FnOnce() -> T>(&self, f: F) -> (r: &T)
        requires
            call_requires(f, ()),
    {
        self.cell.call_once(f)
    }
}

} // verus!
