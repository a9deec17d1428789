//! The user's request to stop, as the interrupt handler records it.

use std::sync::atomic::AtomicBool;
use std::sync::atomic::Ordering;
use vstd::prelude::*;

verus! {

/// Whether the user has asked the run to stop. The flag is shared with the
/// interrupt handler, so its value is whatever that handler last stored.
pub fn is_cancelled(cancel: &AtomicBool) -> bool {
    cancel.load(Ordering::SeqCst)
}

} // verus!
