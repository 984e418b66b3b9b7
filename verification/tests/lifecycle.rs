use sdl2_ttf::error::Error;
use sdl2_ttf::font::{FaceInfo, Font, OpenOutcome};
use sdl2_ttf::surface::{RenderOutcome, Surface};
use sdl2_ttf::{init, quit, was_inited, Ttf};

fn plain_face() -> FaceInfo {
    FaceInfo {
        height: 16,
        ascent: 13,
        descent: -3,
        line_skip: 18,
        faces: 1,
        fixed_width: false,
        family_name: Some(String::from("Vera")),
        style_name: Some(String::from("Roman")),
    }
}

#[test]
fn init_is_idempotent() {
    let mut ttf = Ttf::new();
    assert!(!was_inited(&ttf));
    // First call: the driver invoked the foreign initializer, which succeeded.
    assert!(init(&mut ttf, Some(0)));
    assert!(was_inited(&ttf));
    // Second call: already initialized, no foreign call happens.
    assert!(init(&mut ttf, None));
    assert!(was_inited(&ttf));
}

#[test]
fn init_failure_is_reported_as_false() {
    let mut ttf = Ttf::new();
    assert!(!init(&mut ttf, Some(-1)));
    assert!(!was_inited(&ttf));
    // A later successful attempt still works.
    assert!(init(&mut ttf, Some(0)));
    assert!(was_inited(&ttf));
}

#[test]
fn quit_clears_the_state() {
    let mut ttf = Ttf::new();
    assert!(init(&mut ttf, Some(0)));
    quit(&mut ttf);
    assert!(!was_inited(&ttf));
}

#[test]
fn owned_font_releases_while_initialized() {
    let mut ttf = Ttf::new();
    assert!(init(&mut ttf, Some(0)));
    let font = Font::from_ll(41, true, plain_face());
    assert_eq!(font.close(&ttf), Some(41));
}

#[test]
fn unowned_font_never_releases() {
    let mut ttf = Ttf::new();
    assert!(init(&mut ttf, Some(0)));
    let font = Font::from_ll(41, false, plain_face());
    assert_eq!(font.close(&ttf), None);
}

#[test]
fn close_after_quit_releases_nothing() {
    let mut ttf = Ttf::new();
    assert!(init(&mut ttf, Some(0)));
    let font = Font::from_ll(41, true, plain_face());
    quit(&mut ttf);
    // The use-after-shutdown guard: no release, hence no double free.
    assert_eq!(font.close(&ttf), None);
}

#[test]
fn open_failure_carries_the_diagnostic() {
    let outcome = OpenOutcome::Failed {
        diagnostic: String::from("Couldn't open missing.ttf"),
    };
    let r = Font::from_file(24, outcome);
    match r {
        Ok(_) => panic!("a null foreign handle must become an error"),
        Err(Error { message }) => {
            assert_eq!(message, "Couldn't open missing.ttf");
            assert!(!message.is_empty());
        }
    }
}

#[test]
fn open_success_yields_an_owned_font_with_defaults() {
    let outcome = OpenOutcome::Opened {
        handle: 7,
        face: plain_face(),
    };
    let font = Font::from_file(24, outcome).unwrap();
    assert_eq!(font.raw, 7);
    assert!(font.owned);
    assert_eq!(font.get_outline(), 0);
    assert!(font.get_kerning());
    assert_eq!(font.get_style().bits(), 0);
}

#[test]
fn surfaces_from_two_renders_are_independent() {
    let first = Surface::from_render(RenderOutcome::Rendered { handle: 10 }).unwrap();
    let second = Surface::from_render(RenderOutcome::Rendered { handle: 11 }).unwrap();
    assert!(first.owned);
    assert!(second.owned);
    assert_ne!(first.raw, second.raw);
    // Destroying the first releases its own buffer and cannot touch the other.
    assert_eq!(first.close(), 10);
    assert_eq!(second.raw, 11);
    assert_eq!(second.close(), 11);
}

#[test]
fn failed_render_carries_the_diagnostic() {
    let r = Surface::from_render(RenderOutcome::Failed {
        diagnostic: String::from("Text has zero width"),
    });
    match r {
        Ok(_) => panic!("a null foreign surface must become an error"),
        Err(e) => assert_eq!(e.message, "Text has zero width"),
    }
}
