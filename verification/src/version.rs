//! Version of the dynamically linked native font engine.

use vstd::prelude::*;

verus! {

/// A version triple read directly from the foreign version struct.
///
/// Pure data: callable even before the subsystem is initialized.
#[derive(PartialEq, Eq, Structural, Clone, Copy, Debug)]
pub struct Version {
    pub major: u8,
    pub minor: u8,
    pub patch: u8,
}

impl Version {
    /// Wrap the three integers of a foreign version struct.
    pub fn from_ll(major: u8, minor: u8, patch: u8) -> (v: Version)
        ensures
            v == (Version { major, minor, patch }),
    {
        Version { major, minor, patch }
    }
}

} // verus!
