//! A small game-loop framework: configuration, the frame driver, per-frame input
//! snapshots, an FPS clock and the drawing state of the engine context.

pub mod builder;
pub mod draw;
pub mod driver;
pub mod engine;
pub mod fps;
pub mod fullscreen;
pub mod geometry;
pub mod input;
pub mod texture;
pub mod title;

pub use builder::Builder;
pub use draw::{
    anti_aliased, blend_mode, clear, clip_rect, draw_char, draw_circle, draw_color, draw_ellipse,
    draw_line, draw_lines, draw_point, draw_points, draw_rect, draw_rects, draw_string,
    draw_triangle, fill_circle, fill_ellipse, fill_rect, fill_rects, fill_triangle, key,
    mouse_button, mouse_pos, point_fits_i16, set_anti_alias, set_blend_mode, set_clip_rect,
    set_draw_color, set_viewport, viewport, Command,
};
pub use driver::{Action, Driver, Phase, Report, Step};
pub use engine::{BlendMode, Engine, EngineBuildError, EngineSlot, UsageError};
pub use fps::{FpsCounter, Tick};
pub use fullscreen::Fullscreen;
pub use geometry::{Color, Point, Rect};
pub use input::{Button, InputState, KeyboardState, MouseButton, MouseState, RawMouse};
pub use texture::LoadTextureError;
pub use title::fps_title;
