//! Per-glyph measurements.

use vstd::prelude::*;

verus! {

/// One glyph's bounding box and horizontal advance, as reported by the
/// foreign glyph-metrics query. A plain value: produced per query, never
/// mutated, no ownership concerns.
#[derive(PartialEq, Eq, Structural, Clone, Copy, Debug)]
pub struct GlyphMetrics {
    pub minx: i32,
    pub maxx: i32,
    pub miny: i32,
    pub maxy: i32,
    pub advance: i32,
}

} // verus!
