//! Safe, ownership-tracked model of a truetype font rendering subsystem.
//!
//! The heavy lifting — rasterization, hinting, kerning — belongs to a native
//! font engine that is reached only through a thin unverified driver. What
//! this crate verifies is the part of a binding that has real design content:
//! the process-wide init/teardown state machine, the ownership discipline of
//! font and surface handles (release exactly once, never after shutdown), and
//! the translation of foreign outcomes (null handles, return codes, the shared
//! diagnostic slot) into typed results.
//!
//! Every call into the native engine is represented by a plain-value outcome
//! (for example [`font::OpenOutcome`]) that the driver hands back to this
//! library; the functions here are verified for every possible outcome.

use vstd::prelude::*;

pub mod color;
pub mod error;
pub mod font;
pub mod hinting;
pub mod metrics;
pub mod rwops;
pub mod style;
pub mod surface;
pub mod version;

verus! {

/// Process-wide state of the truetype font subsystem.
///
/// The native engine keeps its own global init counter; a program holds one
/// value of this type and threads it through [`init`], [`was_inited`] and
/// [`quit`] so that every ownership decision (notably [`font::Font::close`])
/// can be checked against the subsystem's lifecycle. This layer adds no
/// locking of its own: concurrent use across threads without external
/// synchronization is the caller's responsibility.
pub struct Ttf {
    initialized: bool,
}

impl Ttf {
    /// True when the subsystem has been initialized and not yet torn down.
    pub closed spec fn is_initialized(&self) -> bool {
        self.initialized
    }

    /// The state of a process that has not initialized the subsystem yet.
    pub fn new() -> (t: Ttf)
        ensures
            !t.is_initialized(),
    {
        Ttf { initialized: false }
    }
}

/// The state transition performed by [`init`]: given the current state and
/// the foreign initializer's return code (when it was invoked), yields
/// whether the call reports success and whether the subsystem is initialized
/// afterwards.
pub open spec fn spec_init(inited: bool, foreign_code: Option<i32>) -> (bool, bool) {
    if inited {
        (true, true)
    } else {
        match foreign_code {
            Some(code) => (code == 0, code == 0),
            None => (false, false),
        }
    }
}

/// Initialize the truetype font subsystem.
///
/// Idempotent: when the subsystem is already initialized this reports success
/// without consulting `foreign_code`, and the driver must not have re-invoked
/// the foreign initializer. Otherwise `foreign_code` is the return code of
/// the foreign initializer (zero meaning success), or `None` when the driver
/// could not invoke it at all. Failure is a plain boolean because the foreign
/// library guarantees no diagnostic string this early.
pub fn init(ttf: &mut Ttf, foreign_code: Option<i32>) -> (ok: bool)
    ensures
        ok == spec_init(old(ttf).is_initialized(), foreign_code).0,
        final(ttf).is_initialized() == spec_init(old(ttf).is_initialized(), foreign_code).1,
{
    if ttf.initialized {
        true
    } else {
        match foreign_code {
            Some(code) => {
                ttf.initialized = code == 0;
                code == 0
            },
            None => false,
        }
    }
}

/// Query the initialization status of the truetype font subsystem.
pub fn was_inited(ttf: &Ttf) -> (r: bool)
    ensures
        r == ttf.is_initialized(),
{
    ttf.initialized
}

/// Shut the truetype font subsystem down.
///
/// Unconditional and best-effort: the driver invokes the foreign teardown
/// whatever the current state, and foreign errors during teardown are not
/// surfaced. Afterwards no font handle may be used, and closing one releases
/// nothing (see [`font::Font::close`]).
pub fn quit(ttf: &mut Ttf)
    ensures
        !final(ttf).is_initialized(),
{
    ttf.initialized = false;
}

/// Initialization is idempotent: once one call has reported success, the
/// subsystem is initialized and every later call reports success again while
/// leaving the subsystem initialized, whatever foreign outcome it carries.
pub proof fn lemma_init_idempotent(inited: bool, first: Option<i32>, second: Option<i32>)
    requires
        spec_init(inited, first).0,
    ensures
        spec_init(inited, first).1,
        spec_init(spec_init(inited, first).1, second).0,
        spec_init(spec_init(inited, first).1, second).1,
{
}

} // verus!
