//! Render styles, a small bitset in the foreign interface.

use vstd::prelude::*;

verus! {

/// The render style of a font: any combination of bold, italic, underline
/// and strike-through. The empty combination is the normal style.
#[derive(PartialEq, Eq, Structural, Clone, Copy, Debug)]
pub struct FontStyle {
    pub bold: bool,
    pub italic: bool,
    pub underline: bool,
    pub strikethrough: bool,
}

/// The foreign bitset encoding of a style: bit 0 bold, bit 1 italic,
/// bit 2 underline, bit 3 strike-through.
pub open spec fn spec_style_bits(s: FontStyle) -> int {
    (if s.bold { 1int } else { 0int }) + (if s.italic { 2int } else { 0int }) + (if s.underline {
        4int
    } else {
        0int
    }) + (if s.strikethrough { 8int } else { 0int })
}

/// The style a foreign bitset denotes; bits beyond the four known ones are
/// dropped.
pub open spec fn spec_style_from_bits(bits: int) -> FontStyle {
    FontStyle {
        bold: bits % 2 == 1,
        italic: bits / 2 % 2 == 1,
        underline: bits / 4 % 2 == 1,
        strikethrough: bits / 8 % 2 == 1,
    }
}

impl FontStyle {
    /// The normal style: no style bit set.
    pub fn normal() -> (s: FontStyle)
        ensures
            s == (FontStyle { bold: false, italic: false, underline: false, strikethrough: false }),
    {
        FontStyle { bold: false, italic: false, underline: false, strikethrough: false }
    }

    /// Bold alone.
    pub fn bold() -> (s: FontStyle)
        ensures
            s == (FontStyle { bold: true, italic: false, underline: false, strikethrough: false }),
    {
        FontStyle { bold: true, italic: false, underline: false, strikethrough: false }
    }

    /// Italic alone.
    pub fn italic() -> (s: FontStyle)
        ensures
            s == (FontStyle { bold: false, italic: true, underline: false, strikethrough: false }),
    {
        FontStyle { bold: false, italic: true, underline: false, strikethrough: false }
    }

    /// Underline alone.
    pub fn underline() -> (s: FontStyle)
        ensures
            s == (FontStyle { bold: false, italic: false, underline: true, strikethrough: false }),
    {
        FontStyle { bold: false, italic: false, underline: true, strikethrough: false }
    }

    /// Strike-through alone.
    pub fn strikethrough() -> (s: FontStyle)
        ensures
            s == (FontStyle { bold: false, italic: false, underline: false, strikethrough: true }),
    {
        FontStyle { bold: false, italic: false, underline: false, strikethrough: true }
    }

    /// The union of two styles: a bit is set when it is set in either.
    pub fn union(self, other: FontStyle) -> (r: FontStyle)
        ensures
            r.bold == (self.bold || other.bold),
            r.italic == (self.italic || other.italic),
            r.underline == (self.underline || other.underline),
            r.strikethrough == (self.strikethrough || other.strikethrough),
    {
        FontStyle {
            bold: self.bold || other.bold,
            italic: self.italic || other.italic,
            underline: self.underline || other.underline,
            strikethrough: self.strikethrough || other.strikethrough,
        }
    }

    /// Whether every bit of `other` is also set in `self`.
    pub fn contains(self, other: FontStyle) -> (r: bool)
        ensures
            r == ((other.bold ==> self.bold) && (other.italic ==> self.italic) && (other.underline
                ==> self.underline) && (other.strikethrough ==> self.strikethrough)),
    {
        (!other.bold || self.bold) && (!other.italic || self.italic) && (!other.underline
            || self.underline) && (!other.strikethrough || self.strikethrough)
    }

    /// Encode this style as the foreign bitset. The result never exceeds 15.
    pub fn bits(self) -> (r: u32)
        ensures
            r == spec_style_bits(self),
            r <= 15,
    {
        (if self.bold {
            1u32
        } else {
            0u32
        }) + (if self.italic {
            2u32
        } else {
            0u32
        }) + (if self.underline {
            4u32
        } else {
            0u32
        }) + (if self.strikethrough {
            8u32
        } else {
            0u32
        })
    }

    /// Decode a foreign bitset, dropping any bits beyond the four known ones.
    pub fn from_bits_truncate(bits: u32) -> (s: FontStyle)
        ensures
            s == spec_style_from_bits(bits as int),
    {
        FontStyle {
            bold: bits % 2 == 1,
            italic: bits / 2 % 2 == 1,
            underline: bits / 4 % 2 == 1,
            strikethrough: bits / 8 % 2 == 1,
        }
    }
}

/// Encoding a style as the foreign bitset and decoding the result gives the
/// style back: a style set through the foreign interface is read back
/// exactly, whatever combination of bits it holds.
pub proof fn lemma_style_bits_roundtrip(s: FontStyle)
    ensures
        spec_style_from_bits(spec_style_bits(s)) == s,
{
}

} // verus!
