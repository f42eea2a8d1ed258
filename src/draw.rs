use vstd::prelude::*;
use vstd::string::StringExecFns;

use crate::engine::{BlendMode, Engine};
use crate::geometry::{Color, Point, Rect};
use crate::input::{button_of, key_down, mouse_down, neutral_button, Button, MouseButton};

verus! {

/// One call to make on the drawing surface. Each drawing function of this module decides
/// the call and the new drawing state; the platform layer makes the call at once.
///
/// The variants that draw with the renderer's own color (`DrawPoint` to `FillRects`) set
/// that color first. The shape primitives (`Circle` onwards) take 16-bit coordinates and
/// a color of their own; `smooth` asks for anti-aliasing.
#[derive(Debug, PartialEq, Eq)]
pub enum Command {
    /// Fill the whole target with the color.
    Clear(Color),
    SetDrawColor(Color),
    SetBlendMode(BlendMode),
    SetClipRect(Option<Rect>),
    SetViewport(Option<Rect>),
    DrawPoint(Color, Point),
    DrawPoints(Color, Vec<Point>),
    /// A polyline through the points.
    DrawLines(Color, Vec<Point>),
    DrawRect(Color, Rect),
    DrawRects(Color, Vec<Rect>),
    FillRect(Color, Rect),
    FillRects(Color, Vec<Rect>),
    Circle { x: i16, y: i16, radius: i16, color: Color, smooth: bool },
    FilledCircle { x: i16, y: i16, radius: i16, color: Color },
    Ellipse { x: i16, y: i16, rx: i16, ry: i16, color: Color, smooth: bool },
    FilledEllipse { x: i16, y: i16, rx: i16, ry: i16, color: Color },
    Line { x1: i16, y1: i16, x2: i16, y2: i16, color: Color, smooth: bool },
    Triangle {
        ax: i16,
        ay: i16,
        bx: i16,
        by: i16,
        cx: i16,
        cy: i16,
        color: Color,
        smooth: bool,
    },
    FilledTriangle { ax: i16, ay: i16, bx: i16, by: i16, cx: i16, cy: i16, color: Color },
    Character { x: i16, y: i16, c: char, color: Color },
    Text { x: i16, y: i16, text: String, color: Color },
}

/// Whether both coordinates of a point fit in 16 signed bits, as the shape primitives
/// need.
pub open spec fn fits_i16(p: Point) -> bool {
    i16::MIN <= p.x <= i16::MAX && i16::MIN <= p.y <= i16::MAX
}

/// `e` with its draw color set to `c` and nothing else changed.
pub open spec fn with_color(e: Engine, c: Color) -> Engine {
    Engine { draw_color: c, ..e }
}

pub fn point_fits_i16(p: Point) -> (r: bool)
    ensures
        r == fits_i16(p),
{
    -32768 <= p.x && p.x <= 32767 && -32768 <= p.y && p.y <= 32767
}

/// The 16-bit coordinates of a point that fits in them.
fn to_xy(p: Point) -> (r: (i16, i16))
    requires
        fits_i16(p),
    ensures
        r.0 as int == p.x,
        r.1 as int == p.y,
{
    (p.x as i16, p.y as i16)
}

fn copy_of<T: Copy>(items: &[T]) -> (v: Vec<T>)
    ensures
        v@ == items@,
{
    let mut v: Vec<T> = Vec::with_capacity(items.len());
    let mut i: usize = 0;
    while i < items.len()
        invariant
            i <= items@.len(),
            v@ == items@.subrange(0, i as int),
        decreases items@.len() - i,
    {
        v.push(items[i]);
        i = i + 1;
    }
    assert(v@ == items@);
    v
}

/// The current blend mode.
pub fn blend_mode(engine: &Engine) -> (r: BlendMode)
    ensures
        r == engine.blend_mode,
{
    engine.blend_mode
}

/// Sets the blend mode for alpha blending.
pub fn set_blend_mode(engine: &mut Engine, blend: BlendMode) -> (c: Command)
    ensures
        *final(engine) == (Engine { blend_mode: blend, ..*old(engine) }),
        c == Command::SetBlendMode(blend),
{
    engine.blend_mode = blend;
    Command::SetBlendMode(blend)
}

/// The current draw color.
pub fn draw_color(engine: &Engine) -> (r: Color)
    ensures
        r == engine.draw_color,
{
    engine.draw_color
}

/// Sets the color that later drawing uses.
pub fn set_draw_color(engine: &mut Engine, color: Color) -> (c: Command)
    ensures
        *final(engine) == with_color(*old(engine), color),
        c == Command::SetDrawColor(color),
{
    engine.draw_color = color;
    Command::SetDrawColor(color)
}

/// Clears the whole target to `color`, which becomes the draw color.
pub fn clear(engine: &mut Engine, color: Color) -> (c: Command)
    ensures
        *final(engine) == with_color(*old(engine), color),
        c == Command::Clear(color),
{
    engine.draw_color = color;
    Command::Clear(color)
}

/// The clipping rectangle in use, if any.
pub fn clip_rect(engine: &Engine) -> (r: Option<Rect>)
    ensures
        r == engine.clip,
{
    engine.clip
}

/// Sets the clipping rectangle, or with `None` clips to the whole surface again.
pub fn set_clip_rect(engine: &mut Engine, rect: Option<Rect>) -> (c: Command)
    ensures
        *final(engine) == (Engine { clip: rect, ..*old(engine) }),
        c == Command::SetClipRect(rect),
{
    engine.clip = rect;
    Command::SetClipRect(rect)
}

/// The viewport: the one set last, or the whole surface.
pub fn viewport(engine: &Engine) -> (r: Rect)
    ensures
        r == (match engine.viewport {
            Some(v) => v,
            None => engine.surface,
        }),
{
    match engine.viewport {
        Some(v) => v,
        None => engine.surface,
    }
}

/// Sets the viewport, or with `None` resets it to the whole surface. Drawing is confined
/// to it until it is reset.
pub fn set_viewport(engine: &mut Engine, rect: Option<Rect>) -> (c: Command)
    ensures
        *final(engine) == (Engine { viewport: rect, ..*old(engine) }),
        c == Command::SetViewport(rect),
{
    engine.viewport = rect;
    Command::SetViewport(rect)
}

/// Draws one pixel at `point` in `color`.
pub fn draw_point(engine: &mut Engine, point: Point, color: Color) -> (c: Command)
    ensures
        *final(engine) == with_color(*old(engine), color),
        c == Command::DrawPoint(color, point),
{
    engine.draw_color = color;
    Command::DrawPoint(color, point)
}

/// Draws a pixel at each of `points` in `color`.
pub fn draw_points(engine: &mut Engine, points: &[Point], color: Color) -> (c: Command)
    ensures
        *final(engine) == with_color(*old(engine), color),
        c matches Command::DrawPoints(k, v) && k == color && v@ == points@,
{
    engine.draw_color = color;
    Command::DrawPoints(color, copy_of(points))
}

/// Draws a polyline through `points` in `color`.
pub fn draw_lines(engine: &mut Engine, points: &[Point], color: Color) -> (c: Command)
    ensures
        *final(engine) == with_color(*old(engine), color),
        c matches Command::DrawLines(k, v) && k == color && v@ == points@,
{
    engine.draw_color = color;
    Command::DrawLines(color, copy_of(points))
}

/// Draws the outline of `rect` in `color`.
pub fn draw_rect(engine: &mut Engine, rect: Rect, color: Color) -> (c: Command)
    ensures
        *final(engine) == with_color(*old(engine), color),
        c == Command::DrawRect(color, rect),
{
    engine.draw_color = color;
    Command::DrawRect(color, rect)
}

/// Draws the outlines of `rects` in `color`.
pub fn draw_rects(engine: &mut Engine, rects: &[Rect], color: Color) -> (c: Command)
    ensures
        *final(engine) == with_color(*old(engine), color),
        c matches Command::DrawRects(k, v) && k == color && v@ == rects@,
{
    engine.draw_color = color;
    Command::DrawRects(color, copy_of(rects))
}

/// Fills `rect` with `color`.
pub fn fill_rect(engine: &mut Engine, rect: Rect, color: Color) -> (c: Command)
    ensures
        *final(engine) == with_color(*old(engine), color),
        c == Command::FillRect(color, rect),
{
    engine.draw_color = color;
    Command::FillRect(color, rect)
}

/// Fills each of `rects` with `color`.
pub fn fill_rects(engine: &mut Engine, rects: &[Rect], color: Color) -> (c: Command)
    ensures
        *final(engine) == with_color(*old(engine), color),
        c matches Command::FillRects(k, v) && k == color && v@ == rects@,
{
    engine.draw_color = color;
    Command::FillRects(color, copy_of(rects))
}

/// Whether shapes are drawn anti-aliased.
pub fn anti_aliased(engine: &Engine) -> (r: bool)
    ensures
        r == engine.anti_alias,
{
    engine.anti_alias
}

/// Sets whether shapes are drawn anti-aliased.
pub fn set_anti_alias(engine: &mut Engine, anti_alias: bool)
    ensures
        *final(engine) == (Engine { anti_alias, ..*old(engine) }),
{
    engine.anti_alias = anti_alias;
}

/// Draws a character with its top-left corner at `pos`.
pub fn draw_char(engine: &Engine, pos: Point, character: char, color: Color) -> (c: Command)
    requires
        fits_i16(pos),
    ensures
        c matches Command::Character { x, y, c: k, color: col } && x == pos.x && y == pos.y
            && k == character && col == color,
{
    let (x, y) = to_xy(pos);
    Command::Character { x, y, c: character, color }
}

/// Draws a string with its top-left corner at `pos`.
pub fn draw_string(engine: &Engine, pos: Point, string: &str, color: Color) -> (c: Command)
    requires
        fits_i16(pos),
    ensures
        c matches Command::Text { x, y, text, color: col } && x == pos.x && y == pos.y && text@
            == string@ && col == color,
{
    let (x, y) = to_xy(pos);
    Command::Text { x, y, text: String::from_str(string), color }
}

/// Draws the outline of a circle, anti-aliased when the engine says so.
pub fn draw_circle(engine: &Engine, center: Point, radius: i16, color: Color) -> (c: Command)
    requires
        fits_i16(center),
    ensures
        c matches Command::Circle { x, y, radius: r, color: col, smooth } && x == center.x && y
            == center.y && r == radius && col == color && smooth == engine.anti_alias,
{
    let (x, y) = to_xy(center);
    Command::Circle { x, y, radius, color, smooth: engine.anti_alias }
}

/// Draws a filled circle.
pub fn fill_circle(engine: &Engine, center: Point, radius: i16, color: Color) -> (c: Command)
    requires
        fits_i16(center),
    ensures
        c matches Command::FilledCircle { x, y, radius: r, color: col } && x == center.x && y
            == center.y && r == radius && col == color,
{
    let (x, y) = to_xy(center);
    Command::FilledCircle { x, y, radius, color }
}

/// Draws the outline of an ellipse with horizontal and vertical radii `radii.x` and
/// `radii.y`, anti-aliased when the engine says so.
pub fn draw_ellipse(engine: &Engine, center: Point, radii: Point, color: Color) -> (c: Command)
    requires
        fits_i16(center),
        fits_i16(radii),
    ensures
        c matches Command::Ellipse { x, y, rx, ry, color: col, smooth } && x == center.x && y
            == center.y && rx == radii.x && ry == radii.y && col == color && smooth
            == engine.anti_alias,
{
    let (x, y) = to_xy(center);
    let (rx, ry) = to_xy(radii);
    Command::Ellipse { x, y, rx, ry, color, smooth: engine.anti_alias }
}

/// Draws a filled ellipse.
pub fn fill_ellipse(engine: &Engine, center: Point, radii: Point, color: Color) -> (c: Command)
    requires
        fits_i16(center),
        fits_i16(radii),
    ensures
        c matches Command::FilledEllipse { x, y, rx, ry, color: col } && x == center.x && y
            == center.y && rx == radii.x && ry == radii.y && col == color,
{
    let (x, y) = to_xy(center);
    let (rx, ry) = to_xy(radii);
    Command::FilledEllipse { x, y, rx, ry, color }
}

/// Draws a straight line from `start` to `end`, anti-aliased when the engine says so.
pub fn draw_line(engine: &Engine, start: Point, end: Point, color: Color) -> (c: Command)
    requires
        fits_i16(start),
        fits_i16(end),
    ensures
        c matches Command::Line { x1, y1, x2, y2, color: col, smooth } && x1 == start.x && y1
            == start.y && x2 == end.x && y2 == end.y && col == color && smooth
            == engine.anti_alias,
{
    let (x1, y1) = to_xy(start);
    let (x2, y2) = to_xy(end);
    Command::Line { x1, y1, x2, y2, color, smooth: engine.anti_alias }
}

/// Draws the outline of the triangle `a`, `b`, `c`, anti-aliased when the engine says so.
pub fn draw_triangle(engine: &Engine, a: Point, b: Point, c: Point, color: Color) -> (r: Command)
    requires
        fits_i16(a),
        fits_i16(b),
        fits_i16(c),
    ensures
        r matches Command::Triangle { ax, ay, bx, by, cx, cy, color: col, smooth } && ax == a.x
            && ay == a.y && bx == b.x && by == b.y && cx == c.x && cy == c.y && col == color
            && smooth == engine.anti_alias,
{
    let (ax, ay) = to_xy(a);
    let (bx, by) = to_xy(b);
    let (cx, cy) = to_xy(c);
    Command::Triangle { ax, ay, bx, by, cx, cy, color, smooth: engine.anti_alias }
}

/// Draws the filled triangle `a`, `b`, `c`.
pub fn fill_triangle(engine: &Engine, a: Point, b: Point, c: Point, color: Color) -> (r: Command)
    requires
        fits_i16(a),
        fits_i16(b),
        fits_i16(c),
    ensures
        r matches Command::FilledTriangle { ax, ay, bx, by, cx, cy, color: col } && ax == a.x
            && ay == a.y && bx == b.x && by == b.y && cx == c.x && cy == c.y && col == color,
{
    let (ax, ay) = to_xy(a);
    let (bx, by) = to_xy(b);
    let (cx, cy) = to_xy(c);
    Command::FilledTriangle { ax, ay, bx, by, cx, cy, color }
}

/// The state of the key with scancode `code` in this frame; all-false before the first
/// update.
pub fn key(engine: &Engine, code: usize) -> (b: Button)
    ensures
        b == (if engine.input.refreshed {
            button_of(
                key_down(engine.input.keyboard.current@, code as int),
                key_down(engine.input.keyboard.previous@, code as int),
            )
        } else {
            neutral_button()
        }),
{
    engine.input.key(code)
}

/// The state of a mouse button in this frame; all-false before the first update.
pub fn mouse_button(engine: &Engine, button: MouseButton) -> (b: Button)
    ensures
        b == (if engine.input.refreshed {
            button_of(
                mouse_down(engine.input.mouse.current, button),
                mouse_down(engine.input.mouse.previous, button),
            )
        } else {
            neutral_button()
        }),
{
    engine.input.mouse_button(button)
}

/// Where the mouse pointer is in this frame.
pub fn mouse_pos(engine: &Engine) -> (p: Point)
    ensures
        p == (Point { x: engine.input.mouse.current.x, y: engine.input.mouse.current.y }),
{
    engine.input.mouse.pos()
}

/// Drawing leaves the clipping rectangle alone, and setting it then asking for it, with
/// any drawing in between, gives back exactly the rectangle set; `None` clears it.
pub proof fn lemma_clip_rect_round_trip(e: Engine, rect: Option<Rect>, color: Color)
    ensures
        with_color(e, color).clip == e.clip,
        (Engine { clip: rect, ..e }).clip == rect,
        with_color(Engine { clip: rect, ..e }, color).clip == rect,
        rect is None ==> with_color(Engine { clip: rect, ..e }, color).clip is None,
{
}

} // verus!
