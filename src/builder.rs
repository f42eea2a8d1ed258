use vstd::prelude::*;

use crate::fullscreen::Fullscreen;

verus! {

/// The settings an engine is started with.
#[derive(Clone, Copy, Debug)]
pub struct Builder<'a> {
    pub title: &'a str,
    pub width: u32,
    pub height: u32,
    /// Whether presenting a frame waits for the display's refresh.
    pub present_vsync: bool,
    /// Whether the frame rate is measured and shown in the window title.
    pub show_fps: bool,
    pub fullscreen: Fullscreen,
    /// Whether shapes are drawn anti-aliased.
    pub anti_alias: bool,
}

impl<'a> Builder<'a> {
    /// The settings for a window of the given title and size, with vsync and the frame
    /// rate shown, windowed, and without anti-aliasing.
    pub fn new(title: &'a str, width: u32, height: u32) -> (b: Builder<'a>)
        ensures
            b.title == title,
            b.width == width,
            b.height == height,
            b.present_vsync,
            b.show_fps,
            b.fullscreen == Fullscreen::Off,
            !b.anti_alias,
    {
        Builder {
            title,
            width,
            height,
            present_vsync: true,
            show_fps: true,
            fullscreen: Fullscreen::Off,
            anti_alias: false,
        }
    }

    pub fn present_vsync(self, val: bool) -> (b: Builder<'a>)
        ensures
            b == (Builder { present_vsync: val, ..self }),
    {
        Builder { present_vsync: val, ..self }
    }

    pub fn show_fps(self, val: bool) -> (b: Builder<'a>)
        ensures
            b == (Builder { show_fps: val, ..self }),
    {
        Builder { show_fps: val, ..self }
    }

    pub fn fullscreen(self, val: Fullscreen) -> (b: Builder<'a>)
        ensures
            b == (Builder { fullscreen: val, ..self }),
    {
        Builder { fullscreen: val, ..self }
    }

    pub fn anti_alias(self, val: bool) -> (b: Builder<'a>)
        ensures
            b == (Builder { anti_alias: val, ..self }),
    {
        Builder { anti_alias: val, ..self }
    }
}

} // verus!
