//! The single error shape of this library.

use vstd::prelude::*;

verus! {

/// An error carrying the foreign library's human-readable diagnostic.
///
/// The foreign error state is a process-wide slot that the next foreign call
/// overwrites, so the driver must capture the diagnostic immediately after
/// the failing call; every constructor in this library then preserves that
/// captured text exactly.
#[derive(Debug)]
pub struct Error {
    pub message: String,
}

impl Error {
    /// Wrap a diagnostic captured right after a failing foreign call.
    pub fn new(message: String) -> (e: Error)
        ensures
            e.message@ == message@,
    {
        Error { message }
    }
}

} // verus!
