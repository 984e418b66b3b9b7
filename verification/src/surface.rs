//! Owned handles to rendered pixel buffers.

use vstd::prelude::*;
use crate::error::Error;

verus! {

/// What a foreign render call came back with: the address of a freshly
/// allocated pixel buffer, or a null surface together with the diagnostic
/// captured from the foreign error slot immediately after the call.
pub enum RenderOutcome {
    Rendered { handle: usize },
    Failed { diagnostic: String },
}

/// A render outcome as the driver is obliged to report it: a buffer that was
/// rendered is never at the null address.
pub open spec fn wf_render_outcome(outcome: RenderOutcome) -> bool {
    outcome matches RenderOutcome::Rendered { handle } ==> handle != 0
}

/// An owned handle to one rasterized pixel buffer.
///
/// Render calls always allocate a fresh buffer, so a surface obtained from
/// one is always owned, shares nothing with the font that produced it, and
/// is released unconditionally when closed. The handle is deliberately
/// neither copyable nor clonable: one buffer, one owner.
#[derive(Debug)]
pub struct Surface {
    pub raw: usize,
    pub owned: bool,
}

/// The translation performed by [`Surface::from_render`]: a rendered buffer
/// becomes an owned surface around exactly that buffer, a failure becomes an
/// error carrying exactly the captured diagnostic.
pub open spec fn render_translated(outcome: RenderOutcome, r: Result<Surface, Error>) -> bool {
    match outcome {
        RenderOutcome::Rendered { handle } => r matches Ok(s) && s.raw == handle && s.owned,
        RenderOutcome::Failed { diagnostic } => r matches Err(e) && e.message@ == diagnostic@,
    }
}

impl Surface {
    /// Turn a foreign render outcome into a typed result.
    ///
    /// Applies uniformly to every rendered buffer — in particular, rendering
    /// empty text yields a minimal buffer, not an error, and it passes
    /// through here like any other.
    pub fn from_render(outcome: RenderOutcome) -> (r: Result<Surface, Error>)
        requires
            wf_render_outcome(outcome),
        ensures
            render_translated(outcome, r),
            r matches Ok(s) ==> s.raw != 0,
    {
        match outcome {
            RenderOutcome::Rendered { handle } => Ok(Surface { raw: handle, owned: true }),
            RenderOutcome::Failed { diagnostic } => Err(Error { message: diagnostic }),
        }
    }

    /// Destroy the handle, yielding the buffer the driver must now release.
    ///
    /// Unconditional: a surface owns its buffer outright, with no dependence
    /// on the font or on the subsystem's lifecycle. Consuming `self` makes
    /// the release happen at most once.
    pub fn close(self) -> (release: usize)
        ensures
            release == self.raw,
    {
        self.raw
    }
}

/// Two successful renders are independently owned: each surface owns its own
/// buffer, and the two buffers are distinct, so releasing one cannot touch
/// the other.
pub proof fn lemma_rendered_surfaces_independent(
    h1: usize,
    h2: usize,
    r1: Result<Surface, Error>,
    r2: Result<Surface, Error>,
)
    requires
        h1 != h2,
        render_translated(RenderOutcome::Rendered { handle: h1 }, r1),
        render_translated(RenderOutcome::Rendered { handle: h2 }, r2),
    ensures
        r1 matches Ok(s1) && r2 matches Ok(s2) && s1.owned && s2.owned && s1.raw == h1 && s2.raw
            == h2 && s1.raw != s2.raw,
{
}

} // verus!
