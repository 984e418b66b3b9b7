//! The foreign rasterizer's hinting modes.

use vstd::prelude::*;

verus! {

/// Strategy the foreign rasterizer uses to align glyph outlines to the pixel
/// grid. The raw encoding of each mode is fixed by the foreign header; see
/// [`Hinting::to_ll`].
#[derive(PartialEq, Eq, Structural, Clone, Copy, Debug)]
pub enum Hinting {
    HintingNormal,
    HintingLight,
    HintingMono,
    HintingNone,
}

/// The foreign integer encoding of a hinting mode.
pub open spec fn spec_hinting_ll(h: Hinting) -> u32 {
    match h {
        Hinting::HintingNormal => 0,
        Hinting::HintingLight => 1,
        Hinting::HintingMono => 2,
        Hinting::HintingNone => 3,
    }
}

/// The hinting mode a foreign integer denotes, if any.
pub open spec fn spec_hinting_from_ll(raw: u32) -> Option<Hinting> {
    if raw == 0 {
        Some(Hinting::HintingNormal)
    } else if raw == 1 {
        Some(Hinting::HintingLight)
    } else if raw == 2 {
        Some(Hinting::HintingMono)
    } else if raw == 3 {
        Some(Hinting::HintingNone)
    } else {
        None
    }
}

impl Hinting {
    /// Encode this mode as the foreign library's integer.
    pub fn to_ll(self) -> (r: u32)
        ensures
            r == spec_hinting_ll(self),
    {
        match self {
            Hinting::HintingNormal => 0,
            Hinting::HintingLight => 1,
            Hinting::HintingMono => 2,
            Hinting::HintingNone => 3,
        }
    }

    /// Decode a foreign integer; `None` when it denotes no known mode.
    pub fn from_ll(raw: u32) -> (r: Option<Hinting>)
        ensures
            r == spec_hinting_from_ll(raw),
    {
        if raw == 0 {
            Some(Hinting::HintingNormal)
        } else if raw == 1 {
            Some(Hinting::HintingLight)
        } else if raw == 2 {
            Some(Hinting::HintingMono)
        } else if raw == 3 {
            Some(Hinting::HintingNone)
        } else {
            None
        }
    }
}

/// Encoding a hinting mode and decoding the result gives the mode back, so
/// the setting survives the trip through the foreign integer unchanged.
pub proof fn lemma_hinting_roundtrip(h: Hinting)
    ensures
        spec_hinting_from_ll(spec_hinting_ll(h)) == Some(h),
{
}

} // verus!
