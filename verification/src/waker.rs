//! Wake handles of the standard library.
//!
//! A `Waker` is opaque to the proofs: nothing is stated of what waking does,
//! nor of when two handles wake the same task.

use vstd::prelude::*;
use std::task::Waker;

verus! {

#[verifier::external_type_specification]
#[verifier::external_body]
pub struct ExWaker(Waker);

/// `Waker::wake_by_ref`: wakes the task of this handle.
#[verifier::external_body]
pub(crate) fn wake_by_ref(waker: &Waker) {
    waker.wake_by_ref()
}

/// `Waker::wake`: wakes the task of this handle and gives the handle up.
#[verifier::external_body]
pub(crate) fn wake(waker: Waker) {
    waker.wake()
}

/// `Waker::will_wake`: whether both handles are known to wake the same task.
#[verifier::external_body]
pub(crate) fn will_wake(waker: &Waker, other: &Waker) -> bool {
    waker.will_wake(other)
}

/// `Waker::clone`: another handle for the same task.
#[verifier::external_body]
pub(crate) fn clone_waker(waker: &Waker) -> Waker {
    waker.clone()
}

} // verus!
