//! The flag that a poll instance shares with its registrators. It starts
//! lowered and is raised, once and for good, when the instance is closed.

use std::sync::atomic::AtomicBool;
use std::sync::atomic::Ordering;
use std::sync::Arc;
use vstd::prelude::*;

verus! {

/// A lowered flag that nobody else holds yet.
pub(crate) fn lowered() -> Arc<AtomicBool> {
    Arc::new(AtomicBool::new(false))
}

/// Whether the flag is raised at this moment.
pub(crate) fn is_raised(flag: &Arc<AtomicBool>) -> bool {
    flag.load(Ordering::SeqCst)
}

/// Raises the flag. Returns whether it was raised already.
pub(crate) fn raise(flag: &Arc<AtomicBool>) -> bool {
    flag.compare_exchange(false, true, Ordering::SeqCst, Ordering::SeqCst).is_err()
}

/// Calls `Arc::clone`, which makes another pointer to the same allocation:
/// the result is the very flag that was passed in.
#[verifier::external_body]
pub(crate) fn share(flag: &Arc<AtomicBool>) -> (other: Arc<AtomicBool>)
    ensures
        other == *flag,
{
    Arc::clone(flag)
}

} // verus!
