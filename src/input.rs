use vstd::prelude::*;

use crate::geometry::Point;

verus! {

/// The state of a key or mouse button in the current frame.
#[derive(Clone, Copy, Debug, PartialEq, Eq, Hash, Structural)]
pub struct Button {
    /// Down in this frame.
    pub held: bool,
    /// Down in this frame and up in the previous one.
    pub pressed: bool,
    /// Up in this frame and down in the previous one.
    pub released: bool,
}

/// What a button reports, given whether it is down now and whether it was down a frame ago.
pub open spec fn button_of(now: bool, before: bool) -> Button {
    Button { held: now, pressed: now && !before, released: !now && before }
}

impl Button {
    pub fn from_states(now: bool, before: bool) -> (b: Button)
        ensures
            b == button_of(now, before),
    {
        Button { held: now, pressed: now && !before, released: !now && before }
    }
}

/// Whether a raw keyboard state marks the key with this scancode as down; a code
/// outside the state is up.
pub open spec fn key_down(raw: Seq<bool>, code: int) -> bool {
    0 <= code < raw.len() && raw[code]
}

/// The buttons of a mouse.
#[derive(Clone, Copy, Debug, PartialEq, Eq, Hash, Structural)]
pub enum MouseButton {
    Unknown,
    Left,
    Middle,
    Right,
    X1,
    X2,
}

/// One reading of the mouse: which buttons are down, and where the pointer is.
#[derive(Clone, Copy, Debug, PartialEq, Eq, Hash, Structural)]
pub struct RawMouse {
    pub left: bool,
    pub middle: bool,
    pub right: bool,
    pub x1: bool,
    pub x2: bool,
    pub x: i32,
    pub y: i32,
}

/// Whether a mouse reading marks this button as down.
pub open spec fn mouse_down(m: RawMouse, b: MouseButton) -> bool {
    match b {
        MouseButton::Unknown => false,
        MouseButton::Left => m.left,
        MouseButton::Middle => m.middle,
        MouseButton::Right => m.right,
        MouseButton::X1 => m.x1,
        MouseButton::X2 => m.x2,
    }
}

/// A mouse reading with no button down, at the origin.
pub open spec fn mouse_at_rest() -> RawMouse {
    RawMouse { left: false, middle: false, right: false, x1: false, x2: false, x: 0, y: 0 }
}

impl RawMouse {
    pub fn at_rest() -> (m: RawMouse)
        ensures
            m == mouse_at_rest(),
    {
        RawMouse { left: false, middle: false, right: false, x1: false, x2: false, x: 0, y: 0 }
    }

    pub fn is_down(&self, b: MouseButton) -> (r: bool)
        ensures
            r == mouse_down(*self, b),
    {
        match b {
            MouseButton::Unknown => false,
            MouseButton::Left => self.left,
            MouseButton::Middle => self.middle,
            MouseButton::Right => self.right,
            MouseButton::X1 => self.x1,
            MouseButton::X2 => self.x2,
        }
    }
}

/// The keyboard in this frame and in the one before, each as one flag per scancode.
pub struct KeyboardState {
    pub current: Vec<bool>,
    pub previous: Vec<bool>,
}

impl KeyboardState {
    /// A keyboard with no key down, now or before.
    pub fn new() -> (k: KeyboardState)
        ensures
            k.current@ == Seq::<bool>::empty(),
            k.previous@ == Seq::<bool>::empty(),
    {
        KeyboardState { current: Vec::new(), previous: Vec::new() }
    }

    /// Starts a new frame: the current state becomes the previous one, and `raw` the current.
    pub fn update(&mut self, raw: &[bool])
        ensures
            final(self).current@ == raw@,
            final(self).previous@ == old(self).current@,
    {
        let mut fresh: Vec<bool> = Vec::with_capacity(raw.len());
        let mut i: usize = 0;
        while i < raw.len()
            invariant
                i <= raw@.len(),
                fresh@ == raw@.subrange(0, i as int),
            decreases raw@.len() - i,
        {
            fresh.push(raw[i]);
            i = i + 1;
        }
        assert(fresh@ == raw@);
        std::mem::swap(&mut self.current, &mut fresh);
        self.previous = fresh;
    }

    /// The state of the key with scancode `code`.
    pub fn get(&self, code: usize) -> (b: Button)
        ensures
            b == button_of(key_down(self.current@, code as int), key_down(self.previous@, code as int)),
    {
        let now = code < self.current.len() && self.current[code];
        let before = code < self.previous.len() && self.previous[code];
        Button::from_states(now, before)
    }
}

/// The mouse in this frame and in the one before.
pub struct MouseState {
    pub current: RawMouse,
    pub previous: RawMouse,
}

impl MouseState {
    /// A mouse with no button down, now or before.
    pub fn new() -> (m: MouseState)
        ensures
            m.current == mouse_at_rest(),
            m.previous == mouse_at_rest(),
    {
        MouseState { current: RawMouse::at_rest(), previous: RawMouse::at_rest() }
    }

    /// Starts a new frame: the current reading becomes the previous one, and `raw` the current.
    pub fn update(&mut self, raw: RawMouse)
        ensures
            final(self).current == raw,
            final(self).previous == old(self).current,
    {
        self.previous = self.current;
        self.current = raw;
    }

    /// The state of a mouse button.
    pub fn button(&self, b: MouseButton) -> (r: Button)
        ensures
            r == button_of(mouse_down(self.current, b), mouse_down(self.previous, b)),
    {
        Button::from_states(self.current.is_down(b), self.previous.is_down(b))
    }

    /// Where the pointer is in this frame.
    pub fn pos(&self) -> (p: Point)
        ensures
            p == (Point { x: self.current.x, y: self.current.y }),
    {
        Point::new(self.current.x, self.current.y)
    }
}

/// The answer to every button query before the first refresh.
pub open spec fn neutral_button() -> Button {
    Button { held: false, pressed: false, released: false }
}

/// The input snapshot of one frame: keyboard and mouse, now and a frame ago.
///
/// Until the first refresh (`refreshed` false) every button query answers all-false;
/// the current state then is only the baseline that the first refresh compares with.
pub struct InputState {
    pub keyboard: KeyboardState,
    pub mouse: MouseState,
    pub refreshed: bool,
}

impl InputState {
    /// The neutral snapshot, with no key or button down as its baseline.
    pub fn new() -> (s: InputState)
        ensures
            s.keyboard.current@ == Seq::<bool>::empty(),
            s.keyboard.previous@ == Seq::<bool>::empty(),
            s.mouse.current == mouse_at_rest(),
            s.mouse.previous == mouse_at_rest(),
            !s.refreshed,
    {
        InputState { keyboard: KeyboardState::new(), mouse: MouseState::new(), refreshed: false }
    }

    /// The neutral snapshot, with the raw state `keys` and `mouse` as its baseline.
    pub fn with_baseline(keys: &[bool], mouse: RawMouse) -> (s: InputState)
        ensures
            s.keyboard.current@ == keys@,
            s.keyboard.previous@ == Seq::<bool>::empty(),
            s.mouse.current == mouse,
            s.mouse.previous == mouse_at_rest(),
            !s.refreshed,
    {
        let mut keyboard = KeyboardState::new();
        keyboard.update(keys);
        let mut m = MouseState::new();
        m.update(mouse);
        InputState { keyboard, mouse: m, refreshed: false }
    }

    /// Takes the raw state of a new frame.
    pub fn refresh(&mut self, keys: &[bool], mouse: RawMouse)
        ensures
            final(self).keyboard.current@ == keys@,
            final(self).keyboard.previous@ == old(self).keyboard.current@,
            final(self).mouse.current == mouse,
            final(self).mouse.previous == old(self).mouse.current,
            final(self).refreshed,
    {
        self.keyboard.update(keys);
        self.mouse.update(mouse);
        self.refreshed = true;
    }

    /// The state of the key with scancode `code`: all-false before the first refresh.
    pub fn key(&self, code: usize) -> (b: Button)
        ensures
            b == (if self.refreshed {
                button_of(
                    key_down(self.keyboard.current@, code as int),
                    key_down(self.keyboard.previous@, code as int),
                )
            } else {
                neutral_button()
            }),
    {
        if self.refreshed {
            self.keyboard.get(code)
        } else {
            Button { held: false, pressed: false, released: false }
        }
    }

    /// The state of a mouse button: all-false before the first refresh.
    pub fn mouse_button(&self, button: MouseButton) -> (b: Button)
        ensures
            b == (if self.refreshed {
                button_of(mouse_down(self.mouse.current, button), mouse_down(self.mouse.previous, button))
            } else {
                neutral_button()
            }),
    {
        if self.refreshed {
            self.mouse.button(button)
        } else {
            Button { held: false, pressed: false, released: false }
        }
    }
}

/// The (current, previous) pair of a snapshot after a run of refreshes, one per frame,
/// from the pair `(current, previous)`.
pub open spec fn snapshot_after<T>(current: T, previous: T, frames: Seq<T>) -> (T, T)
    decreases frames.len(),
{
    if frames.len() == 0 {
        (current, previous)
    } else {
        (frames.last(), snapshot_after(current, previous, frames.drop_last()).0)
    }
}

/// After a non-empty run of refreshes, the snapshot holds the latest frame and the one
/// before it (or the starting state, after a single refresh).
pub proof fn lemma_snapshot_after<T>(current: T, previous: T, frames: Seq<T>)
    requires
        frames.len() >= 1,
    ensures
        snapshot_after(current, previous, frames).0 == frames.last(),
        snapshot_after(current, previous, frames).1 == (if frames.len() >= 2 {
            frames[frames.len() - 2]
        } else {
            current
        }),
{
    let rest = frames.drop_last();
    if rest.len() == 0 {
        assert(snapshot_after(current, previous, rest) == (current, previous));
    } else {
        assert(snapshot_after(current, previous, rest).0 == rest.last());
    }
}

/// After any run of refreshes, a key is held exactly when the latest raw state marks it
/// down; it is pressed exactly when it is down now and was up in the frame before, and
/// released exactly when it is up now and was down before. A pressed key is always held.
pub proof fn lemma_key_follows_refreshes(
    current: Seq<bool>,
    previous: Seq<bool>,
    frames: Seq<Seq<bool>>,
    code: int,
)
    requires
        frames.len() >= 1,
    ensures
        ({
            let after = snapshot_after(current, previous, frames);
            let now = frames.last();
            let before = if frames.len() >= 2 { frames[frames.len() - 2] } else { current };
            let b = button_of(key_down(after.0, code), key_down(after.1, code));
            &&& b.held == key_down(now, code)
            &&& b.pressed == (key_down(now, code) && !key_down(before, code))
            &&& b.released == (!key_down(now, code) && key_down(before, code))
            &&& (b.pressed ==> b.held)
        }),
{
    lemma_snapshot_after(current, previous, frames);
}

/// The same for a mouse button: after any run of refreshes its state follows the latest
/// reading and the one before it, and a pressed button is always held.
pub proof fn lemma_mouse_button_follows_refreshes(
    current: RawMouse,
    previous: RawMouse,
    frames: Seq<RawMouse>,
    b: MouseButton,
)
    requires
        frames.len() >= 1,
    ensures
        ({
            let after = snapshot_after(current, previous, frames);
            let now = frames.last();
            let before = if frames.len() >= 2 { frames[frames.len() - 2] } else { current };
            let r = button_of(mouse_down(after.0, b), mouse_down(after.1, b));
            &&& r.held == mouse_down(now, b)
            &&& r.pressed == (mouse_down(now, b) && !mouse_down(before, b))
            &&& r.released == (!mouse_down(now, b) && mouse_down(before, b))
            &&& (r.pressed ==> r.held)
        }),
{
    lemma_snapshot_after(current, previous, frames);
}

} // verus!
