//! Synchronisation glue: the condition variable that the creation handshake
//! signals through, and a lazily initialised value.

use vstd::prelude::*;

verus! {

#[verifier::external_type_specification]
#[verifier::external_body]
pub struct ExCondvar(parking_lot::Condvar);

/// Relies on `parking_lot::Condvar::notify_one`: wakes one thread that waits
/// on `cvar`, if any. Whether one was woken is of no use to the handshake,
/// whose waiter looks at the slot again in any case.
#[verifier::external_body]
pub fn cvar_notify_one(cvar: &parking_lot::Condvar) {
    let _ = cvar.notify_one();
}

/// A value computed by `init` on first access and kept from then on.
pub struct LazyCell<T, F> {
    init: Option<F>,
    value: Option<T>,
}

impl<T, F> LazyCell<T, F> {
    /// The value, once it was computed.
    pub closed spec fn value(&self) -> Option<T> {
        self.value
    }

    /// The initialiser, while it has not run.
    pub closed spec fn pending(&self) -> Option<F> {
        self.init
    }

    /// The cell's invariant: exactly one of initialiser and value is there.
    pub closed spec fn wf(&self) -> bool {
        self.init is Some != self.value is Some
    }

    /// A cell whose value `init` will compute.
    pub fn new(init: F) -> (r: Self)
        ensures
            r.wf(),
            r.pending() == Some(init),
            r.value() is None,
    {
        LazyCell { init: Some(init), value: None }
    }
}

impl<T, F: FnOnce() -> T> LazyCell<T, F> {
    /// The value: computed by the initialiser on the first call, the same
    /// value on every later one.
    pub fn get(&mut self) -> (r: &T)
        requires
            old(self).wf(),
            old(self).pending() matches Some(f) ==> f.requires(()),
        ensures
            final(self).wf(),
            final(self).value() == Some(*r),
            old(self).value() matches Some(v) ==> *r == v,
            old(self).pending() matches Some(f) ==> f.ensures((), *r),
    {
        if self.value.is_none() {
            let f = self.init.take().unwrap();
            self.value = Some(f());
        }
        self.value.as_ref().unwrap()
    }
}

} // verus!
