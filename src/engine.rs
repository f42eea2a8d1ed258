use vstd::prelude::*;
use vstd::string::StringExecFns;

use crate::builder::Builder;
use crate::geometry::{Color, Rect};
use crate::input::{mouse_at_rest, InputState, RawMouse};

verus! {

/// How drawn pixels are combined with those already on the surface.
#[derive(Clone, Copy, Debug, PartialEq, Eq, Hash, Structural)]
pub enum BlendMode {
    /// The source replaces the destination.
    Replace,
    /// Alpha blending.
    Blend,
    /// Additive blending.
    Add,
    /// Color modulation.
    Mod,
    /// Color multiplication.
    Mul,
    Invalid,
}

/// Why an engine could not be built.
#[derive(Debug, PartialEq, Eq)]
pub enum EngineBuildError {
    /// The drawable target could not be made.
    Canvas(String),
    /// The window could not be opened.
    Window(String),
    /// The native subsystem failed.
    Sdl(String),
}

impl From<String> for EngineBuildError {
    fn from(e: String) -> (r: EngineBuildError)
        ensures
            r == EngineBuildError::Sdl(e),
    {
        EngineBuildError::Sdl(e)
    }
}

impl vstd::std_specs::convert::FromSpecImpl<String> for EngineBuildError {
    open spec fn obeys_from_spec() -> bool {
        true
    }

    open spec fn from_spec(e: String) -> EngineBuildError {
        EngineBuildError::Sdl(e)
    }
}

impl EngineBuildError {
    /// The error as a sentence for people.
    pub fn message(&self) -> (r: String)
        ensures
            r@ == (match self {
                EngineBuildError::Canvas(e) => "Error constructing canvas: "@ + e@,
                EngineBuildError::Window(e) => "Error constructing window: "@ + e@,
                EngineBuildError::Sdl(e) => "SDL error: "@ + e@,
            }),
    {
        match self {
            EngineBuildError::Canvas(e) => String::from_str("Error constructing canvas: ").concat(
                e.as_str(),
            ),
            EngineBuildError::Window(e) => String::from_str("Error constructing window: ").concat(
                e.as_str(),
            ),
            EngineBuildError::Sdl(e) => String::from_str("SDL error: ").concat(e.as_str()),
        }
    }
}

/// The state of an engine context that drawing and input queries read and change: the
/// drawing settings of its surface and the input snapshot of the current frame.
pub struct Engine {
    pub draw_color: Color,
    pub blend_mode: BlendMode,
    /// The clipping rectangle; `None` draws on the whole surface.
    pub clip: Option<Rect>,
    /// The viewport; `None` is the whole surface.
    pub viewport: Option<Rect>,
    /// The whole drawing surface, in logical (scaled) pixels: what the viewport is when
    /// none is set.
    pub surface: Rect,
    pub anti_alias: bool,
    pub input: InputState,
}

/// The rectangle that a surface of the given size covers.
pub open spec fn surface_of(width: u32, height: u32) -> Rect {
    Rect { x: 0, y: 0, w: width, h: height }
}

impl Engine {
    /// A fresh context for the settings `b` on a surface of `width` by `height` logical
    /// pixels: the renderer's initial draw color (all channels zero), no blending, no
    /// clipping, the viewport on the whole surface. The raw state `keys` and `mouse` is
    /// the input baseline: every button query answers all-false until the first update,
    /// which compares with it.
    pub fn new(b: &Builder, width: u32, height: u32, keys: &[bool], mouse: RawMouse) -> (e: Engine)
        ensures
            e.draw_color == (Color { r: 0, g: 0, b: 0, a: 0 }),
            e.blend_mode == BlendMode::Replace,
            e.clip is None,
            e.viewport is None,
            e.surface == surface_of(width, height),
            e.anti_alias == b.anti_alias,
            e.input.keyboard.current@ == keys@,
            e.input.keyboard.previous@ == Seq::<bool>::empty(),
            e.input.mouse.current == mouse,
            e.input.mouse.previous == mouse_at_rest(),
            !e.input.refreshed,
    {
        Engine {
            draw_color: Color::rgba(0, 0, 0, 0),
            blend_mode: BlendMode::Replace,
            clip: None,
            viewport: None,
            surface: Rect::new(0, 0, width, height),
            anti_alias: b.anti_alias,
            input: InputState::with_baseline(keys, mouse),
        }
    }

    /// Starts a new frame, once the previous one has been presented: the input snapshot
    /// takes the fresh raw state. Nothing else changes.
    pub fn update(&mut self, keys: &[bool], mouse: RawMouse)
        ensures
            final(self).input.keyboard.current@ == keys@,
            final(self).input.keyboard.previous@ == old(self).input.keyboard.current@,
            final(self).input.mouse.current == mouse,
            final(self).input.mouse.previous == old(self).input.mouse.current,
            final(self).input.refreshed,
            final(self).draw_color == old(self).draw_color,
            final(self).blend_mode == old(self).blend_mode,
            final(self).clip == old(self).clip,
            final(self).viewport == old(self).viewport,
            final(self).surface == old(self).surface,
            final(self).anti_alias == old(self).anti_alias,
    {
        self.input.refresh(keys, mouse);
    }

    /// Records the size of the whole surface, in logical pixels, when the output or its
    /// scale changes.
    pub fn set_surface_size(&mut self, width: u32, height: u32)
        ensures
            *final(self) == (Engine { surface: surface_of(width, height), ..*old(self) }),
    {
        self.surface = Rect::new(0, 0, width, height);
    }
}

/// A thread's place for its one live engine.
pub struct EngineSlot {
    live: bool,
}

/// Why a second engine cannot start.
#[derive(Clone, Copy, Debug, PartialEq, Eq, Structural)]
pub enum UsageError {
    /// An engine is already live in this thread.
    AlreadyStarted,
}

/// The slot and the answer after a claim on slot state `live`.
pub open spec fn claim_of(live: bool) -> (bool, Result<(), UsageError>) {
    if live {
        (true, Err(UsageError::AlreadyStarted))
    } else {
        (true, Ok(()))
    }
}

impl EngineSlot {
    pub closed spec fn is_live_spec(&self) -> bool {
        self.live
    }

    /// An empty slot.
    pub fn new() -> (s: EngineSlot)
        ensures
            !s.is_live_spec(),
    {
        EngineSlot { live: false }
    }

    pub fn is_live(&self) -> (r: bool)
        ensures
            r == self.is_live_spec(),
    {
        self.live
    }

    /// Claims the slot for a new engine. It fails, and leaves the live engine in place,
    /// when one is live already.
    pub fn claim(&mut self) -> (r: Result<(), UsageError>)
        ensures
            (final(self).is_live_spec(), r) == claim_of(old(self).is_live_spec()),
    {
        if self.live {
            Err(UsageError::AlreadyStarted)
        } else {
            self.live = true;
            Ok(())
        }
    }

    /// Empties the slot once its engine is torn down.
    pub fn release(&mut self)
        ensures
            !final(self).is_live_spec(),
    {
        self.live = false;
    }
}

/// One live engine per thread: from any slot, a second claim without a release in between
/// fails, and the slot stays live.
pub proof fn lemma_second_claim_fails(live: bool)
    ensures
        claim_of(claim_of(live).0).1 == Err::<(), UsageError>(UsageError::AlreadyStarted),
        claim_of(claim_of(live).0).0,
{
}

/// After a release, the next claim succeeds.
pub proof fn lemma_claim_after_release()
    ensures
        claim_of(false).1 == Ok::<(), UsageError>(()),
{
}

} // verus!
