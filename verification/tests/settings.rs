use sdl2_ttf::color::{color_to_c_color, Color, RawColor};
use sdl2_ttf::font::{FaceInfo, Font};
use sdl2_ttf::hinting::Hinting;
use sdl2_ttf::metrics::GlyphMetrics;
use sdl2_ttf::style::FontStyle;
use sdl2_ttf::version::Version;

fn vera_face() -> FaceInfo {
    FaceInfo {
        height: 28,
        ascent: 22,
        descent: -6,
        line_skip: 29,
        faces: 1,
        fixed_width: false,
        family_name: Some(String::from("Bitstream Vera Sans")),
        style_name: Some(String::from("Roman")),
    }
}

#[test]
fn open_at_point_size_24_reports_consistent_metrics() {
    // A known valid font face at point size 24: height and ascent positive,
    // descent reported as a non-positive offset, and the ascent plus the
    // magnitude of the descent does not exceed the height.
    let font = Font::from_file(
        24,
        sdl2_ttf::font::OpenOutcome::Opened { handle: 3, face: vera_face() },
    )
    .unwrap();
    assert!(font.height() > 0);
    assert!(font.ascent() > 0);
    assert!(font.descent() <= 0);
    assert!(font.ascent() + font.descent().abs() <= font.height());
    assert_eq!(font.line_skip(), 29);
    assert_eq!(font.faces(), 1);
    assert!(!font.face_is_fixed_width());
    assert_eq!(font.face_family_name(), Some("Bitstream Vera Sans"));
    assert_eq!(font.face_style_name(), Some("Roman"));
}

#[test]
fn faces_without_name_data_report_none() {
    let mut face = vera_face();
    face.family_name = None;
    face.style_name = None;
    let font = Font::from_ll(3, true, face);
    assert_eq!(font.face_family_name(), None);
    assert_eq!(font.face_style_name(), None);
}

#[test]
fn style_set_then_get_round_trips() {
    let mut font = Font::from_ll(3, true, vera_face());
    font.set_style(FontStyle::bold());
    let got = font.get_style();
    assert!(got.bold);
    assert!(!got.italic && !got.underline && !got.strikethrough);
    assert_eq!(got, FontStyle::bold());
    // Setting the normal style clears every style bit.
    font.set_style(FontStyle::normal());
    assert_eq!(font.get_style().bits(), 0);
}

#[test]
fn style_bits_encode_and_decode_exactly() {
    let fancy = FontStyle::bold().union(FontStyle::underline());
    assert_eq!(fancy.bits(), 1 + 4);
    assert_eq!(FontStyle::from_bits_truncate(fancy.bits()), fancy);
    assert_eq!(FontStyle::normal().bits(), 0);
    assert_eq!(FontStyle::italic().bits(), 2);
    assert_eq!(FontStyle::strikethrough().bits(), 8);
}

#[test]
fn style_decoding_drops_unknown_bits() {
    // Bit 4 and above are unknown to the style bitset and are dropped.
    let all = FontStyle::bold()
        .union(FontStyle::italic())
        .union(FontStyle::underline())
        .union(FontStyle::strikethrough());
    assert_eq!(FontStyle::from_bits_truncate(0x1F), all);
    assert_eq!(FontStyle::from_bits_truncate(16), FontStyle::normal());
}

#[test]
fn style_union_and_contains() {
    let bu = FontStyle::bold().union(FontStyle::underline());
    assert!(bu.contains(FontStyle::bold()));
    assert!(bu.contains(FontStyle::underline()));
    assert!(!bu.contains(FontStyle::italic()));
    assert!(bu.contains(FontStyle::normal()));
}

#[test]
fn outline_set_then_get_round_trips() {
    let mut font = Font::from_ll(3, true, vera_face());
    assert_eq!(font.get_outline(), 0);
    font.set_outline(2);
    assert_eq!(font.get_outline(), 2);
}

#[test]
fn hinting_set_then_get_round_trips() {
    let mut font = Font::from_ll(3, true, vera_face());
    assert_eq!(font.get_hinting(), Hinting::HintingNormal);
    font.set_hinting(Hinting::HintingMono);
    assert_eq!(font.get_hinting(), Hinting::HintingMono);
}

#[test]
fn kerning_set_then_get_round_trips() {
    let mut font = Font::from_ll(3, true, vera_face());
    assert!(font.get_kerning());
    font.set_kerning(false);
    assert!(!font.get_kerning());
}

#[test]
fn hinting_survives_the_foreign_encoding() {
    let modes = [
        Hinting::HintingNormal,
        Hinting::HintingLight,
        Hinting::HintingMono,
        Hinting::HintingNone,
    ];
    for (i, mode) in modes.into_iter().enumerate() {
        assert_eq!(mode.to_ll(), i as u32);
        assert_eq!(Hinting::from_ll(mode.to_ll()), Some(mode));
    }
    assert_eq!(Hinting::from_ll(4), None);
}

#[test]
fn rgb_becomes_fully_opaque() {
    assert_eq!(
        color_to_c_color(Color::RGB(12, 34, 56)),
        RawColor { r: 12, g: 34, b: 56, a: 255 }
    );
}

#[test]
fn rgba_keeps_its_alpha() {
    assert_eq!(
        color_to_c_color(Color::RGBA(12, 34, 56, 78)),
        RawColor { r: 12, g: 34, b: 56, a: 78 }
    );
}

#[test]
fn glyph_metrics_is_plain_data() {
    let m = GlyphMetrics { minx: 1, maxx: 10, miny: -2, maxy: 20, advance: 11 };
    let n = m;
    assert_eq!(m, n);
    assert_eq!(m.advance, 11);
}

#[test]
fn version_wraps_the_foreign_triple() {
    let v = Version::from_ll(2, 0, 12);
    assert_eq!(v, Version { major: 2, minor: 0, patch: 12 });
}
