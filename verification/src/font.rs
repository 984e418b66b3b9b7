//! Font handles: ownership, settings, queries, and the requests and outcome
//! translations of every fallible foreign operation on a font.

use vstd::prelude::*;
use crate::color::{color_to_c_color, spec_c_color, Color, RawColor};
use crate::error::Error;
use crate::hinting::Hinting;
use crate::metrics::GlyphMetrics;
use crate::style::{spec_style_bits, FontStyle};
use crate::was_inited;
use crate::Ttf;

verus! {

/// The read-only attributes of a loaded face, captured from the foreign
/// handle once at open time: vertical metrics, face count, fixed-width flag,
/// and the optional name strings (absent when the foreign library reports
/// none for the face).
#[derive(Debug)]
pub struct FaceInfo {
    pub height: i32,
    pub ascent: i32,
    pub descent: i32,
    pub line_skip: i32,
    pub faces: i64,
    pub fixed_width: bool,
    pub family_name: Option<String>,
    pub style_name: Option<String>,
}

/// What a foreign open call came back with: a non-null font handle together
/// with the face attributes read from it, or a null handle together with the
/// diagnostic captured from the foreign error slot immediately after the
/// call.
pub enum OpenOutcome {
    Opened { handle: usize, face: FaceInfo },
    Failed { diagnostic: String },
}

/// The text a render or measurement request passes to the foreign engine:
/// a LATIN1 byte sequence, a UTF8 string, or a single 16-bit glyph.
#[derive(PartialEq, Eq, Clone, Copy, Debug)]
pub enum TextSource<'a> {
    Latin1(&'a [u8]),
    Utf8(&'a str),
    Glyph(u16),
}

/// The three foreign rendering modes.
#[derive(PartialEq, Eq, Structural, Clone, Copy, Debug)]
pub enum RenderMode {
    /// Fastest: foreground pixels only, no anti-aliasing, transparent
    /// background.
    Solid,
    /// Fully opaque rectangle, anti-aliased foreground over a background
    /// color.
    Shaded,
    /// Full alpha-channel anti-aliasing against a transparent background.
    Blended,
}

/// One fully prepared render call: the text, the mode, and the colors
/// already translated to the foreign four-channel form. The background is
/// present exactly for the shaded mode.
#[derive(PartialEq, Eq, Clone, Copy, Debug)]
pub struct RenderRequest<'a> {
    pub text: TextSource<'a>,
    pub mode: RenderMode,
    pub fg: RawColor,
    pub bg: Option<RawColor>,
}

/// What a foreign measurement call came back with: the pixel bounding box
/// the text would occupy, or the diagnostic captured immediately after the
/// failing call.
pub enum SizeOutcome {
    Sized { width: i32, height: i32 },
    Failed { diagnostic: String },
}

/// The domain of the foreign glyph lookup: it accepts 16-bit codepoints
/// only, so supplementary-plane characters are not representable and must be
/// rejected before any per-glyph operation (see [`glyph_id`]).
pub open spec fn spec_glyph_domain(ch: char) -> bool {
    ch as u32 <= 0xFFFF
}

/// The explicit rejection of codepoints outside the foreign glyph domain:
/// the 16-bit glyph value of `ch`, or `None` for a supplementary-plane
/// character. Callers test a codepoint here before any per-glyph query or
/// render, instead of truncating it silently.
pub fn glyph_id(ch: char) -> (r: Option<u16>)
    ensures
        match r {
            Some(g) => spec_glyph_domain(ch) && g as u32 == ch as u32,
            None => !spec_glyph_domain(ch),
        },
{
    let v = ch as u32;
    if v <= 0xFFFF {
        Some(v as u16)
    } else {
        None
    }
}

/// The handle a fresh open yields for foreign handle `raw`: ownership as
/// given, the captured face attributes, and the settings the foreign library
/// documents as its open-time defaults (normal style, no outline, normal
/// hinting, kerning enabled).
pub open spec fn spec_new_font(raw: usize, owned: bool, face: FaceInfo) -> Font {
    Font {
        raw,
        owned,
        style: FontStyle { bold: false, italic: false, underline: false, strikethrough: false },
        outline: 0,
        hinting: Hinting::HintingNormal,
        kerning: true,
        face,
    }
}

/// The translation performed by the open operations: a non-null handle
/// becomes an owned font with default settings, a failure becomes an error
/// carrying exactly the captured diagnostic.
pub open spec fn open_translated(outcome: OpenOutcome, r: Result<Font, Error>) -> bool {
    match outcome {
        OpenOutcome::Opened { handle, face } => r matches Ok(f) && f == spec_new_font(
            handle,
            true,
            face,
        ),
        OpenOutcome::Failed { diagnostic } => r matches Err(e) && e.message@ == diagnostic@,
    }
}

/// An exclusively owned (or merely observed) reference to one opened font
/// resource.
///
/// The mutable render settings are tracked here, in the handle, as the
/// single source of truth the contracts speak about; the driver mirrors each
/// change to the foreign handle, whose setter calls are defined as always
/// succeeding on a valid handle. The read-only face attributes are the ones
/// captured at open time. The handle is deliberately not clonable: the
/// resource it may own must be released at most once.
#[derive(Debug)]
pub struct Font {
    pub raw: usize,
    pub owned: bool,
    pub style: FontStyle,
    pub outline: i32,
    pub hinting: Hinting,
    pub kerning: bool,
    pub face: FaceInfo,
}

/// The state transition of [`Font::set_style`].
pub open spec fn spec_set_style(f: Font, styles: FontStyle) -> Font {
    Font {
        raw: f.raw,
        owned: f.owned,
        style: styles,
        outline: f.outline,
        hinting: f.hinting,
        kerning: f.kerning,
        face: f.face,
    }
}

/// The state transition of [`Font::set_outline`].
pub open spec fn spec_set_outline(f: Font, outline: i32) -> Font {
    Font {
        raw: f.raw,
        owned: f.owned,
        style: f.style,
        outline,
        hinting: f.hinting,
        kerning: f.kerning,
        face: f.face,
    }
}

/// The state transition of [`Font::set_hinting`].
pub open spec fn spec_set_hinting(f: Font, hinting: Hinting) -> Font {
    Font {
        raw: f.raw,
        owned: f.owned,
        style: f.style,
        outline: f.outline,
        hinting,
        kerning: f.kerning,
        face: f.face,
    }
}

/// The state transition of [`Font::set_kerning`].
pub open spec fn spec_set_kerning(f: Font, kerning: bool) -> Font {
    Font {
        raw: f.raw,
        owned: f.owned,
        style: f.style,
        outline: f.outline,
        hinting: f.hinting,
        kerning,
        face: f.face,
    }
}

/// A font releases its foreign resource at destruction exactly when it owns
/// the resource and the subsystem is still initialized; after a shutdown the
/// foreign library has already released every font, so releasing again would
/// be a double free.
pub open spec fn spec_close_releases(f: Font, inited: bool) -> bool {
    f.owned && inited
}

impl Font {
    /// A font handle is well-formed when its outline width is not negative.
    pub open spec fn wf(&self) -> bool {
        self.outline >= 0
    }

    /// Wrap a foreign font handle, together with the face attributes read
    /// from it. A handle fresh from the foreign library carries the
    /// documented default settings.
    pub fn from_ll(raw: usize, owned: bool, face: FaceInfo) -> (f: Font)
        ensures
            f == spec_new_font(raw, owned, face),
            f.wf(),
    {
        Font {
            raw,
            owned,
            style: FontStyle::normal(),
            outline: 0,
            hinting: Hinting::HintingNormal,
            kerning: true,
            face,
        }
    }

    /// Load a file for use as a font at `ptsize` size: translate what the
    /// foreign open call returned for it. On success the font is owned.
    #[allow(unused_variables)]
    pub fn from_file(ptsize: i32, outcome: OpenOutcome) -> (r: Result<Font, Error>)
        requires
            1 <= ptsize,
        ensures
            open_translated(outcome, r),
            r matches Ok(f) ==> f.wf(),
    {
        match outcome {
            OpenOutcome::Opened { handle, face } => Ok(Font::from_ll(handle, true, face)),
            OpenOutcome::Failed { diagnostic } => Err(Error { message: diagnostic }),
        }
    }

    /// Load one face of a multi-face file (`index` 0 is the default face)
    /// for use as a font at `ptsize` size: translate what the foreign open
    /// call returned for it. On success the font is owned.
    #[allow(unused_variables)]
    pub fn from_file_index(ptsize: i32, index: i64, outcome: OpenOutcome) -> (r: Result<
        Font,
        Error,
    >)
        requires
            1 <= ptsize,
            0 <= index,
        ensures
            open_translated(outcome, r),
            r matches Ok(f) ==> f.wf(),
    {
        match outcome {
            OpenOutcome::Opened { handle, face } => Ok(Font::from_ll(handle, true, face)),
            OpenOutcome::Failed { diagnostic } => Err(Error { message: diagnostic }),
        }
    }

    /// Get the font's render style.
    pub fn get_style(&self) -> (s: FontStyle)
        ensures
            s == self.style,
    {
        self.style
    }

    /// Set the font's render style, replacing the whole combination.
    pub fn set_style(&mut self, styles: FontStyle)
        ensures
            *final(self) == spec_set_style(*old(self), styles),
    {
        self.style = styles;
    }

    /// Get the font's outline width.
    pub fn get_outline(&self) -> (r: i32)
        ensures
            r == self.outline,
    {
        self.outline
    }

    /// Set the font's outline width, which is never negative.
    pub fn set_outline(&mut self, outline: i32)
        requires
            0 <= outline,
        ensures
            *final(self) == spec_set_outline(*old(self), outline),
            final(self).wf(),
    {
        self.outline = outline;
    }

    /// Get the font's hinting mode.
    pub fn get_hinting(&self) -> (h: Hinting)
        ensures
            h == self.hinting,
    {
        self.hinting
    }

    /// Set the font's hinting mode.
    pub fn set_hinting(&mut self, hinting: Hinting)
        ensures
            *final(self) == spec_set_hinting(*old(self), hinting),
    {
        self.hinting = hinting;
    }

    /// Get whether kerning is enabled for the font.
    pub fn get_kerning(&self) -> (r: bool)
        ensures
            r == self.kerning,
    {
        self.kerning
    }

    /// Enable or disable kerning for the font.
    pub fn set_kerning(&mut self, kerning: bool)
        ensures
            *final(self) == spec_set_kerning(*old(self), kerning),
    {
        self.kerning = kerning;
    }

    /// The font's maximum total height.
    pub fn height(&self) -> (r: i32)
        ensures
            r == self.face.height,
    {
        self.face.height
    }

    /// The font's highest ascent (height above the baseline).
    pub fn ascent(&self) -> (r: i32)
        ensures
            r == self.face.ascent,
    {
        self.face.ascent
    }

    /// The font's lowest descent (depth below the baseline, reported as a
    /// non-positive offset by the foreign library).
    pub fn descent(&self) -> (r: i32)
        ensures
            r == self.face.descent,
    {
        self.face.descent
    }

    /// The font's recommended line spacing.
    pub fn line_skip(&self) -> (r: i32)
        ensures
            r == self.face.line_skip,
    {
        self.face.line_skip
    }

    /// The number of faces in the font.
    pub fn faces(&self) -> (r: i64)
        ensures
            r == self.face.faces,
    {
        self.face.faces
    }

    /// Whether the font is monospaced.
    pub fn face_is_fixed_width(&self) -> (r: bool)
        ensures
            r == self.face.fixed_width,
    {
        self.face.fixed_width
    }

    /// The face's family name, when the foreign library reported one.
    pub fn face_family_name(&self) -> (r: Option<&str>)
        ensures
            match r {
                Some(n) => self.face.family_name matches Some(m) && n@ == m@,
                None => self.face.family_name is None,
            },
    {
        match &self.face.family_name {
            Some(n) => Some(n.as_str()),
            None => None,
        }
    }

    /// The face's style name, when the foreign library reported one.
    pub fn face_style_name(&self) -> (r: Option<&str>)
        ensures
            match r {
                Some(n) => self.face.style_name matches Some(m) && n@ == m@,
                None => self.face.style_name is None,
            },
    {
        match &self.face.style_name {
            Some(n) => Some(n.as_str()),
            None => None,
        }
    }

    /// Whether the font provides a glyph for `ch`: translate what the
    /// foreign availability lookup returned for it. The foreign lookup
    /// yields the glyph's index in the font, or zero when the glyph is
    /// absent.
    #[allow(unused_variables)]
    pub fn index_of_char(&self, ch: char, provided: u32) -> (r: Option<usize>)
        requires
            spec_glyph_domain(ch),
        ensures
            match r {
                Some(i) => provided != 0 && i == provided as usize,
                None => provided == 0,
            },
    {
        if provided == 0 {
            None
        } else {
            Some(provided as usize)
        }
    }

    /// The metrics of the font's glyph for `ch`: translate what the foreign
    /// metrics query returned for it. The query fills the five integers and
    /// reports zero, or reports non-zero when the metrics cannot be computed
    /// (for example, the glyph is absent).
    #[allow(unused_variables)]
    pub fn metrics_of_char(
        &self,
        ch: char,
        ret: i32,
        minx: i32,
        maxx: i32,
        miny: i32,
        maxy: i32,
        advance: i32,
    ) -> (r: Option<GlyphMetrics>)
        requires
            spec_glyph_domain(ch),
        ensures
            ret == 0 ==> r == Some(GlyphMetrics { minx, maxx, miny, maxy, advance }),
            ret != 0 ==> r is None,
    {
        if ret != 0 {
            None
        } else {
            Some(GlyphMetrics { minx, maxx, miny, maxy, advance })
        }
    }

    /// The pixel size LATIN1 `text` would occupy if rendered with the
    /// current settings: translate what the foreign measurement call
    /// returned for it.
    #[allow(unused_variables)]
    pub fn size_of_bytes(&self, text: &[u8], outcome: SizeOutcome) -> (r: Result<
        (i32, i32),
        Error,
    >)
        ensures
            size_translated(outcome, r),
    {
        match outcome {
            SizeOutcome::Sized { width, height } => Ok((width, height)),
            SizeOutcome::Failed { diagnostic } => Err(Error { message: diagnostic }),
        }
    }

    /// The pixel size UTF8 `text` would occupy if rendered with the current
    /// settings: translate what the foreign measurement call returned for
    /// it.
    #[allow(unused_variables)]
    pub fn size_of_str(&self, text: &str, outcome: SizeOutcome) -> (r: Result<(i32, i32), Error>)
        ensures
            size_translated(outcome, r),
    {
        match outcome {
            SizeOutcome::Sized { width, height } => Ok((width, height)),
            SizeOutcome::Failed { diagnostic } => Err(Error { message: diagnostic }),
        }
    }

    /// Prepare drawing LATIN1 text in solid mode.
    pub fn render_bytes_solid<'a>(&self, text: &'a [u8], fg: Color) -> (req: RenderRequest<'a>)
        ensures
            req == (RenderRequest {
                text: TextSource::Latin1(text),
                mode: RenderMode::Solid,
                fg: spec_c_color(fg),
                bg: None,
            }),
    {
        RenderRequest {
            text: TextSource::Latin1(text),
            mode: RenderMode::Solid,
            fg: color_to_c_color(fg),
            bg: None,
        }
    }

    /// Prepare drawing UTF8 text in solid mode.
    pub fn render_str_solid<'a>(&self, text: &'a str, fg: Color) -> (req: RenderRequest<'a>)
        ensures
            req == (RenderRequest {
                text: TextSource::Utf8(text),
                mode: RenderMode::Solid,
                fg: spec_c_color(fg),
                bg: None,
            }),
    {
        RenderRequest {
            text: TextSource::Utf8(text),
            mode: RenderMode::Solid,
            fg: color_to_c_color(fg),
            bg: None,
        }
    }

    /// Prepare drawing a single glyph in solid mode.
    pub fn render_char_solid(&self, ch: char, fg: Color) -> (req: RenderRequest<'static>)
        requires
            spec_glyph_domain(ch),
        ensures
            req == (RenderRequest {
                text: TextSource::Glyph((ch as u32) as u16),
                mode: RenderMode::Solid,
                fg: spec_c_color(fg),
                bg: None,
            }),
    {
        let g = ch as u32;
        RenderRequest {
            text: TextSource::Glyph(g as u16),
            mode: RenderMode::Solid,
            fg: color_to_c_color(fg),
            bg: None,
        }
    }

    /// Prepare drawing LATIN1 text in shaded mode, which needs a background
    /// color as well.
    pub fn render_bytes_shaded<'a>(&self, text: &'a [u8], fg: Color, bg: Color) -> (req:
        RenderRequest<'a>)
        ensures
            req == (RenderRequest {
                text: TextSource::Latin1(text),
                mode: RenderMode::Shaded,
                fg: spec_c_color(fg),
                bg: Some(spec_c_color(bg)),
            }),
    {
        RenderRequest {
            text: TextSource::Latin1(text),
            mode: RenderMode::Shaded,
            fg: color_to_c_color(fg),
            bg: Some(color_to_c_color(bg)),
        }
    }

    /// Prepare drawing UTF8 text in shaded mode, which needs a background
    /// color as well.
    pub fn render_str_shaded<'a>(&self, text: &'a str, fg: Color, bg: Color) -> (req:
        RenderRequest<'a>)
        ensures
            req == (RenderRequest {
                text: TextSource::Utf8(text),
                mode: RenderMode::Shaded,
                fg: spec_c_color(fg),
                bg: Some(spec_c_color(bg)),
            }),
    {
        RenderRequest {
            text: TextSource::Utf8(text),
            mode: RenderMode::Shaded,
            fg: color_to_c_color(fg),
            bg: Some(color_to_c_color(bg)),
        }
    }

    /// Prepare drawing a single glyph in shaded mode, which needs a
    /// background color as well.
    pub fn render_char_shaded(&self, ch: char, fg: Color, bg: Color) -> (req: RenderRequest<
        'static,
    >)
        requires
            spec_glyph_domain(ch),
        ensures
            req == (RenderRequest {
                text: TextSource::Glyph((ch as u32) as u16),
                mode: RenderMode::Shaded,
                fg: spec_c_color(fg),
                bg: Some(spec_c_color(bg)),
            }),
    {
        let g = ch as u32;
        RenderRequest {
            text: TextSource::Glyph(g as u16),
            mode: RenderMode::Shaded,
            fg: color_to_c_color(fg),
            bg: Some(color_to_c_color(bg)),
        }
    }

    /// Prepare drawing LATIN1 text in blended mode.
    pub fn render_bytes_blended<'a>(&self, text: &'a [u8], fg: Color) -> (req: RenderRequest<'a>)
        ensures
            req == (RenderRequest {
                text: TextSource::Latin1(text),
                mode: RenderMode::Blended,
                fg: spec_c_color(fg),
                bg: None,
            }),
    {
        RenderRequest {
            text: TextSource::Latin1(text),
            mode: RenderMode::Blended,
            fg: color_to_c_color(fg),
            bg: None,
        }
    }

    /// Prepare drawing UTF8 text in blended mode.
    pub fn render_str_blended<'a>(&self, text: &'a str, fg: Color) -> (req: RenderRequest<'a>)
        ensures
            req == (RenderRequest {
                text: TextSource::Utf8(text),
                mode: RenderMode::Blended,
                fg: spec_c_color(fg),
                bg: None,
            }),
    {
        RenderRequest {
            text: TextSource::Utf8(text),
            mode: RenderMode::Blended,
            fg: color_to_c_color(fg),
            bg: None,
        }
    }

    /// Prepare drawing a single glyph in blended mode.
    pub fn render_char_blended(&self, ch: char, fg: Color) -> (req: RenderRequest<'static>)
        requires
            spec_glyph_domain(ch),
        ensures
            req == (RenderRequest {
                text: TextSource::Glyph((ch as u32) as u16),
                mode: RenderMode::Blended,
                fg: spec_c_color(fg),
                bg: None,
            }),
    {
        let g = ch as u32;
        RenderRequest {
            text: TextSource::Glyph(g as u16),
            mode: RenderMode::Blended,
            fg: color_to_c_color(fg),
            bg: None,
        }
    }

    /// Destroy the handle, yielding the foreign font the driver must now
    /// release, if any: the resource is released exactly when this handle
    /// owns it and the subsystem is still initialized, and skipped otherwise
    /// — after a shutdown the foreign library has already released it.
    /// Consuming `self` makes the release happen at most once.
    pub fn close(self, ttf: &Ttf) -> (release: Option<usize>)
        ensures
            spec_close_releases(self, ttf.is_initialized()) ==> release == Some(self.raw),
            !spec_close_releases(self, ttf.is_initialized()) ==> release is None,
    {
        if self.owned && was_inited(ttf) {
            Some(self.raw)
        } else {
            None
        }
    }
}

/// The translation performed by the measurement operations: a measured text
/// yields its pixel box, a failure becomes an error carrying exactly the
/// captured diagnostic.
pub open spec fn size_translated(outcome: SizeOutcome, r: Result<(i32, i32), Error>) -> bool {
    match outcome {
        SizeOutcome::Sized { width, height } => r matches Ok(wh) && wh.0 == width && wh.1
            == height,
        SizeOutcome::Failed { diagnostic } => r matches Err(e) && e.message@ == diagnostic@,
    }
}

/// Setting a style and reading it back yields exactly that style — no other
/// attribute of the handle moves — and setting the normal style clears every
/// style bit.
pub proof fn lemma_style_set_get_roundtrip(f: Font, styles: FontStyle)
    ensures
        spec_set_style(f, styles).style == styles,
        spec_set_style(f, styles).raw == f.raw && spec_set_style(f, styles).owned == f.owned
            && spec_set_style(f, styles).face == f.face,
        spec_style_bits(
            spec_set_style(
                f,
                FontStyle { bold: false, italic: false, underline: false, strikethrough: false },
            ).style,
        ) == 0,
{
}

/// Once the subsystem has been shut down, destroying a font handle releases
/// nothing, whether or not the handle owns its resource: the use-after-
/// shutdown guard holds for every font.
pub proof fn lemma_no_release_after_shutdown(f: Font)
    ensures
        !spec_close_releases(f, false),
{
}

} // verus!
