use sge::{Button, InputState, KeyboardState, MouseButton, MouseState, Point, RawMouse};

fn mouse(left: bool, right: bool, x: i32, y: i32) -> RawMouse {
    RawMouse { left, middle: false, right, x1: false, x2: false, x, y }
}

#[test]
fn neutral_before_first_refresh() {
    let s = InputState::new();
    assert!(!s.refreshed);
    let none = Button { held: false, pressed: false, released: false };
    assert_eq!(s.key(4), none);
    assert_eq!(s.mouse_button(MouseButton::Left), none);
    assert_eq!(s.keyboard.get(4), none);
    assert_eq!(s.keyboard.get(0), none);
    assert_eq!(s.mouse.button(MouseButton::Left), none);
    assert_eq!(s.mouse.pos(), Point::new(0, 0));
}

#[test]
fn key_pressed_held_released_over_frames() {
    let mut k = KeyboardState::new();
    let up = vec![false; 8];
    let mut down = vec![false; 8];
    down[3] = true;

    k.update(&down);
    assert_eq!(k.get(3), Button { held: true, pressed: true, released: false });

    k.update(&down);
    assert_eq!(k.get(3), Button { held: true, pressed: false, released: false });

    k.update(&up);
    assert_eq!(k.get(3), Button { held: false, pressed: false, released: true });

    k.update(&up);
    assert_eq!(k.get(3), Button { held: false, pressed: false, released: false });
    assert_eq!(k.previous, up);
    assert_eq!(k.current, up);
}

#[test]
fn key_outside_the_state_is_up() {
    let mut k = KeyboardState::new();
    k.update(&[true, true]);
    assert_eq!(k.get(2), Button { held: false, pressed: false, released: false });
    assert_eq!(k.get(usize::MAX), Button { held: false, pressed: false, released: false });
    assert!(k.get(1).pressed);
}

#[test]
fn pressed_implies_held_for_every_pair() {
    for now in [false, true] {
        for before in [false, true] {
            let b = Button::from_states(now, before);
            assert_eq!(b.held, now);
            assert_eq!(b.pressed, now && !before);
            assert_eq!(b.released, !now && before);
            assert!(!b.pressed || b.held);
        }
    }
}

#[test]
fn mouse_buttons_and_position() {
    let mut m = MouseState::new();
    m.update(mouse(true, false, 10, 20));
    assert_eq!(m.button(MouseButton::Left), Button { held: true, pressed: true, released: false });
    assert_eq!(m.button(MouseButton::Right), Button { held: false, pressed: false, released: false });
    assert_eq!(m.pos(), Point::new(10, 20));

    m.update(mouse(false, true, -5, 7));
    assert_eq!(m.button(MouseButton::Left), Button { held: false, pressed: false, released: true });
    assert_eq!(m.button(MouseButton::Right), Button { held: true, pressed: true, released: false });
    assert_eq!(m.button(MouseButton::Unknown), Button { held: false, pressed: false, released: false });
    assert_eq!(m.pos(), Point::new(-5, 7));
}

#[test]
fn refresh_moves_both_devices_on() {
    let mut s = InputState::new();
    s.refresh(&[false, true], mouse(true, false, 1, 2));
    s.refresh(&[true, true], mouse(true, false, 3, 4));
    assert_eq!(s.keyboard.previous, vec![false, true]);
    assert_eq!(s.keyboard.current, vec![true, true]);
    assert!(s.keyboard.get(0).pressed);
    assert!(s.keyboard.get(1).held && !s.keyboard.get(1).pressed);
    assert_eq!(s.mouse.previous, mouse(true, false, 1, 2));
    assert!(s.mouse.button(MouseButton::Left).held);
    assert!(!s.mouse.button(MouseButton::Left).pressed);
}

#[test]
fn baseline_counts_only_from_the_first_refresh() {
    let m = mouse(true, false, 1, 1);
    let mut s = InputState::with_baseline(&[true, false], m);
    let none = Button { held: false, pressed: false, released: false };
    assert_eq!(s.key(0), none);
    assert_eq!(s.mouse_button(MouseButton::Left), none);
    s.refresh(&[true, true], m);
    assert!(s.refreshed);
    assert_eq!(s.key(0), Button { held: true, pressed: false, released: false });
    assert_eq!(s.key(1), Button { held: true, pressed: true, released: false });
    assert_eq!(s.mouse_button(MouseButton::Left), Button { held: true, pressed: false, released: false });
}
