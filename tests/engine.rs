use sge::{
    BlendMode, Builder, Button, Color, Engine, EngineBuildError, EngineSlot, Fullscreen,
    LoadTextureError, MouseButton, RawMouse, Rect, UsageError,
};

fn rest() -> RawMouse {
    RawMouse { left: false, middle: false, right: false, x1: false, x2: false, x: 0, y: 0 }
}

#[test]
fn builder_defaults_and_setters() {
    let b = Builder::new("Game", 320, 200);
    assert_eq!(b.title, "Game");
    assert_eq!((b.width, b.height), (320, 200));
    assert!(b.present_vsync && b.show_fps && !b.anti_alias);
    assert_eq!(b.fullscreen, Fullscreen::Off);
    let b = b.present_vsync(false).show_fps(false).fullscreen(Fullscreen::Desktop).anti_alias(true);
    assert!(!b.present_vsync && !b.show_fps && b.anti_alias);
    assert_eq!(b.fullscreen, Fullscreen::Desktop);
    assert_eq!(b.title, "Game");
}

#[test]
fn fullscreen_from_bool() {
    assert_eq!(Fullscreen::from(true), Fullscreen::On);
    assert_eq!(Fullscreen::from(false), Fullscreen::Off);
}

#[test]
fn new_engine_state() {
    let b = Builder::new("T", 640, 480).anti_alias(true);
    let mut m = rest();
    m.left = true;
    // A scaled output: the surface is given in logical pixels.
    let e = Engine::new(&b, 320, 240, &[false, true], m);
    assert_eq!(e.surface, Rect::new(0, 0, 320, 240));
    assert_eq!(e.clip, None);
    assert_eq!(e.viewport, None);
    assert_eq!(e.blend_mode, BlendMode::Replace);
    assert_eq!(e.draw_color, Color::rgba(0, 0, 0, 0));
    assert!(e.anti_alias);
    assert!(!e.input.refreshed);
}

#[test]
fn input_is_neutral_until_the_first_update() {
    let b = Builder::new("T", 640, 480);
    let mut m = rest();
    m.left = true;
    let mut e = Engine::new(&b, 640, 480, &[false, true], m);
    let none = Button { held: false, pressed: false, released: false };
    for code in 0..4 {
        assert_eq!(sge::key(&e, code), none);
    }
    assert_eq!(sge::mouse_button(&e, MouseButton::Left), none);
    // The first update compares with the state taken at construction.
    e.update(&[true, true], m);
    assert_eq!(sge::key(&e, 0), Button { held: true, pressed: true, released: false });
    assert_eq!(sge::key(&e, 1), Button { held: true, pressed: false, released: false });
    assert_eq!(sge::mouse_button(&e, MouseButton::Left), Button { held: true, pressed: false, released: false });
}

#[test]
fn engine_update_refreshes_input_only() {
    let b = Builder::new("T", 10, 10);
    let mut e = Engine::new(&b, 10, 10, &[true], rest());
    e.update(&[true], rest());
    assert!(e.input.refreshed);
    assert!(e.input.key(0).held);
    assert!(!e.input.key(0).pressed);
    e.update(&[false], rest());
    assert!(e.input.key(0).released);
    assert_eq!(e.surface, Rect::new(0, 0, 10, 10));
}

#[test]
fn surface_size_follows_the_output() {
    let mut e = Engine::new(&Builder::new("T", 640, 480), 640, 480, &[], rest());
    e.set_surface_size(1280, 720);
    assert_eq!(e.surface, Rect::new(0, 0, 1280, 720));
    assert_eq!(sge::viewport(&e), Rect::new(0, 0, 1280, 720));
}

#[test]
fn second_engine_in_a_thread_is_refused() {
    let mut slot = EngineSlot::new();
    assert!(!slot.is_live());
    assert_eq!(slot.claim(), Ok(()));
    assert!(slot.is_live());
    assert_eq!(slot.claim(), Err(UsageError::AlreadyStarted));
    assert!(slot.is_live());
    slot.release();
    assert!(!slot.is_live());
    assert_eq!(slot.claim(), Ok(()));
}

#[test]
fn build_error_messages() {
    assert_eq!(
        EngineBuildError::Canvas(String::from("x")).message(),
        "Error constructing canvas: x"
    );
    assert_eq!(
        EngineBuildError::Window(String::from("too big")).message(),
        "Error constructing window: too big"
    );
    assert_eq!(EngineBuildError::Sdl(String::from("no video")).message(), "SDL error: no video");
    assert_eq!(EngineBuildError::from(String::from("e")), EngineBuildError::Sdl(String::from("e")));
}

#[test]
fn texture_error_messages() {
    assert_eq!(
        LoadTextureError::LoadError(String::from("missing.bmp")).message(),
        "Error loading texture: missing.bmp"
    );
    assert_eq!(
        LoadTextureError::ValueError(String::from("width overflows")).message(),
        "Value error: width overflows"
    );
}
