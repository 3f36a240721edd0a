//! A single slot that two tasks hand heap values through: each side puts in
//! the box it holds and takes out the one that was there.

use vstd::prelude::*;

verus! {

#[verifier::external_type_specification]
#[verifier::external_body]
#[verifier::reject_recursive_types(T)]
pub struct ExMutex<T: ?Sized>(std::sync::Mutex<T>);

/// Relies on std's `Mutex::new`, which only wraps its argument.
pub assume_specification<T>[ std::sync::Mutex::<T>::new ](t: T) -> std::sync::Mutex<T>;

/// A slot holding one boxed value at every moment, exchanged whole.
#[derive(Debug)]
#[verifier::reject_recursive_types(T)]
pub struct AtomicSwap<T> {
    slot: std::sync::Mutex<Box<T>>,
}

impl<T: Send> AtomicSwap<T> {
    /// A slot that first holds `ptr`.
    pub fn new(ptr: Box<T>) -> (r: Self) {
        AtomicSwap { slot: std::sync::Mutex::new(ptr) }
    }

    /// Puts `ptr` into the slot and returns the box that was there, in one
    /// step that no other exchange interleaves with.
    ///
    /// Relies on std's `Mutex::lock` for the exclusion (a poisoned lock is
    /// taken over as it is) and on `mem::replace` for the exchange. What comes
    /// back depends on the exchanges that other tasks made.
    #[verifier::external_body]
    pub fn swap(&self, ptr: Box<T>) -> Box<T> {
        let mut held = match self.slot.lock() {
            Ok(g) => g,
            Err(poisoned) => poisoned.into_inner(),
        };
        std::mem::replace(&mut *held, ptr)
    }
}

} // verus!
