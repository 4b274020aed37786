//! The non-owning side of the interruption flag.
//!
//! The worker's unit of work holds the only strong, owning handle to the flag
//! cell (an `Arc<AtomicBool>`) for its entire execution span and drops it the
//! instant the unit of work returns. The [`WeakFlag`] kept by the handle is a
//! non-owning observer of that cell: whether it can still be upgraded tells
//! whether the worker is still executing, and it never extends the cell's
//! lifetime.

use vstd::prelude::*;

verus! {

use std::sync::Arc;
use std::sync::atomic::AtomicBool;

/// Non-owning observer of a worker's interruption flag, the weak counterpart
/// of the strong `Arc<AtomicBool>` handed to the unit of work at spawn.
#[verifier::external_body]
pub(crate) struct WeakFlag {
    weak: std::sync::Weak<AtomicBool>,
}

/// Relies on `std::sync::Arc::downgrade`: creates the non-owning observer of
/// the flag cell; the observer never keeps the cell alive.
#[verifier::external_body]
pub(crate) fn downgrade(strong: &Arc<AtomicBool>) -> (weak: WeakFlag) {
    WeakFlag { weak: Arc::downgrade(strong) }
}

/// Relies on `std::sync::Weak::upgrade`: returns an owning handle to the flag
/// cell while at least one strong handle still exists, and `None` once every
/// strong handle has been dropped. Which branch comes back depends on the
/// concurrently running worker, so nothing is promised of it.
#[verifier::external_body]
pub(crate) fn upgrade(weak: &WeakFlag) -> (strong: Option<Arc<AtomicBool>>) {
    weak.weak.upgrade()
}

} // verus!
