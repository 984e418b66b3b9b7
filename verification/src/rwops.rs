//! The loader capability: fonts from an already-open byte stream.

use vstd::prelude::*;
use crate::error::Error;
use crate::font::{open_translated, Font, OpenOutcome};

verus! {

/// An already-open, randomly seekable byte-stream resource — an in-memory
/// buffer, an open file, or any stream the lower-level system has
/// materialized — identified by its stable raw stream handle.
///
/// The stream's lifetime stays with its owner: a font loaded from it never
/// takes over closing it (the foreign open call is made with its auto-close
/// flag off), so the owner must keep the stream alive while the font is in
/// use and close it exactly once afterwards.
#[derive(Clone, Copy, Debug)]
pub struct RWops {
    pub raw: usize,
}

/// The capability of loading fonts from an arbitrary byte-stream resource
/// rather than a filesystem path.
pub trait LoaderRWops {
    /// Load the stream for use as a font at `ptsize` size: translate what
    /// the foreign stream-open call returned for it. On success the font is
    /// owned; the stream is not.
    fn load_font(&self, ptsize: i32, outcome: OpenOutcome) -> (r: Result<Font, Error>)
        requires
            1 <= ptsize,
        ensures
            open_translated(outcome, r),
    ;

    /// Load one face of the stream (`index` 0 is the default face) for use
    /// as a font at `ptsize` size: translate what the foreign stream-open
    /// call returned for it. On success the font is owned; the stream is
    /// not.
    fn load_font_index(&self, ptsize: i32, index: i64, outcome: OpenOutcome) -> (r: Result<
        Font,
        Error,
    >)
        requires
            1 <= ptsize,
            0 <= index,
        ensures
            open_translated(outcome, r),
    ;
}

impl LoaderRWops for RWops {
    fn load_font(&self, ptsize: i32, outcome: OpenOutcome) -> (r: Result<Font, Error>) {
        Font::from_file(ptsize, outcome)
    }

    fn load_font_index(&self, ptsize: i32, index: i64, outcome: OpenOutcome) -> (r: Result<
        Font,
        Error,
    >) {
        Font::from_file_index(ptsize, index, outcome)
    }
}

} // verus!
