//! Drawable primitives and their uniform scaling.
//!
//! Every primitive supports a uniform scalar multiply touching all
//! geometric fields consistently: positions and sizes round to the nearest
//! integer after multiplication, font point sizes scale linearly at their
//! thousandth-of-a-point precision. Multiplying by exactly one is a true
//! no-op that returns the input unchanged.

use vstd::prelude::*;
use crate::images::CacheableImage;
use crate::scale::{SCALE_UNIT, Scale, clamp_i32, clamp_u32, spec_scale_int};
use crate::structs::Position;
use crate::svgs::CacheableSvg;
use crate::text::Paragraph;
use crate::window::Window;

verus! {

/// A rectangle: its top-left corner and its size.
#[derive(Debug, Clone, PartialEq, Eq, Structural)]
pub struct Rect {
    pub x: i32,
    pub y: i32,
    pub width: u32,
    pub height: u32,
}

/// Corner radii of a rounded rectangle.
#[derive(Debug, Clone, PartialEq, Eq, Structural)]
pub struct Rounding {
    pub top_l: u16,
    pub top_r: u16,
    pub bottom_l: u16,
    pub bottom_r: u16,
}

impl Rounding {
    pub fn new(top_l: u16, top_r: u16, bottom_l: u16, bottom_r: u16) -> (r: Self)
        ensures
            r == (Rounding { top_l, top_r, bottom_l, bottom_r }),
    {
        Self { top_l, top_r, bottom_l, bottom_r }
    }

    /// The same radius on every corner.
    pub fn new_uniform(radius: u16) -> (r: Self)
        ensures
            r == (Rounding { top_l: radius, top_r: radius, bottom_l: radius, bottom_r: radius }),
    {
        Self::new(radius, radius, radius, radius)
    }

    /// One radius for the top corners, one for the bottom corners.
    pub fn new_horizontal(top: u16, bottom: u16) -> (r: Self)
        ensures
            r == (Rounding { top_l: top, top_r: top, bottom_l: bottom, bottom_r: bottom }),
    {
        Self::new(top, top, bottom, bottom)
    }

    /// One radius for the left corners, one for the right corners.
    pub fn new_vertical(left: u16, right: u16) -> (r: Self)
        ensures
            r == (Rounding { top_l: left, top_r: right, bottom_l: left, bottom_r: right }),
    {
        Self::new(left, right, left, right)
    }
}

/// A drawable primitive.
#[derive(Debug, Clone)]
pub enum Object {
    Rectangle { rounding: Option<Rounding>, color: u32, rect: Rect },
    Text {
        text: String,
        font: Option<String>,
        size_millis: u32,
        color: u32,
        position: Position,
    },
    Paragraph { paragraph: Paragraph, position: Position },
    Image { image: CacheableImage, rect: Rect },
    Svg { svg: CacheableSvg, color: u32, rect: Rect },
}

/// A rectangle scaled field by field, rounded to the nearest integer.
pub open spec fn spec_scale_rect(rect: Rect, millis: int) -> Rect {
    Rect {
        x: clamp_i32(spec_scale_int(rect.x as int, millis)) as i32,
        y: clamp_i32(spec_scale_int(rect.y as int, millis)) as i32,
        width: clamp_u32(spec_scale_int(rect.width as int, millis)) as u32,
        height: clamp_u32(spec_scale_int(rect.height as int, millis)) as u32,
    }
}

/// A position scaled field by field, rounded to the nearest integer.
pub open spec fn spec_scale_position(p: Position, millis: int) -> Position {
    Position {
        x: clamp_i32(spec_scale_int(p.x as int, millis)) as i32,
        y: clamp_i32(spec_scale_int(p.y as int, millis)) as i32,
    }
}

/// An object scaled by a factor: geometry rounds to the nearest integer,
/// font sizes scale at thousandth precision, and everything that is not
/// geometry is kept. Scaling by exactly one keeps the object as it is.
pub open spec fn spec_scale_object(object: Object, millis: int) -> Object {
    if millis == SCALE_UNIT as int {
        object
    } else {
        match object {
            Object::Rectangle { rounding, color, rect } => Object::Rectangle {
                rounding,
                color,
                rect: spec_scale_rect(rect, millis),
            },
            Object::Text { text, font, size_millis, color, position } => Object::Text {
                text,
                font,
                size_millis: clamp_u32(spec_scale_int(size_millis as int, millis)) as u32,
                color,
                position: spec_scale_position(position, millis),
            },
            Object::Paragraph { paragraph, position } => Object::Paragraph {
                paragraph,
                position: spec_scale_position(position, millis),
            },
            Object::Image { image, rect } => Object::Image {
                image,
                rect: spec_scale_rect(rect, millis),
            },
            Object::Svg { svg, color, rect } => Object::Svg {
                svg,
                color,
                rect: spec_scale_rect(rect, millis),
            },
        }
    }
}

impl Rect {
    /// Multiplies every field by the scale, rounding each to the nearest
    /// integer.
    pub fn scale_by(self, scale: Scale) -> (r: Rect)
        ensures
            r == spec_scale_rect(self, scale.millis as int),
    {
        Rect {
            x: crate::scale::scale_i32(self.x, scale),
            y: crate::scale::scale_i32(self.y, scale),
            width: crate::scale::scale_u32(self.width, scale),
            height: crate::scale::scale_u32(self.height, scale),
        }
    }
}

impl Object {
    /// Shorthand for building a `Rect`.
    pub fn rect(x: i32, y: i32, width: u32, height: u32) -> (r: Rect)
        ensures
            r == (Rect { x, y, width, height }),
    {
        Rect { x, y, width, height }
    }

    /// Shorthand for an `Object::Rectangle` with the given properties.
    pub fn rectangle(x: i32, y: i32, width: u32, height: u32, color: u32, rounding: Option<
        Rounding,
    >) -> (r: Object)
        ensures
            r == (Object::Rectangle { color, rounding, rect: Rect { x, y, width, height } }),
    {
        Object::Rectangle { color, rounding, rect: Self::rect(x, y, width, height) }
    }

    /// Shorthand for an `Object::Text` with the given properties; the size
    /// is in thousandths of a point.
    pub fn text(x: i32, y: i32, text: String, font: Option<String>, size_millis: u32, color: u32)
        -> (r: Object)
        ensures
            r matches Object::Text { text: t, font: f, size_millis: s, color: c, position: p }
                && t@ == text@ && f == font && s == size_millis && c == color && p == (Position {
                x,
                y,
            }),
    {
        Object::Text { text, font, color, size_millis, position: Position::new(x, y) }
    }

    /// Shorthand for an `Object::Paragraph` with the given properties.
    pub fn paragraph(x: i32, y: i32, paragraph: Paragraph) -> (r: Object)
        ensures
            r matches Object::Paragraph { paragraph: g, position: p } && g == paragraph && p == (
            Position { x, y }),
    {
        Object::Paragraph { position: Position::new(x, y), paragraph }
    }

    /// Shorthand for an `Object::Image` with the given properties.
    pub fn image(x: i32, y: i32, width: u32, height: u32, image: CacheableImage) -> (r: Object)
        ensures
            r matches Object::Image { image: i, rect } && i == image && rect == (Rect {
                x,
                y,
                width,
                height,
            }),
    {
        Object::Image { image, rect: Self::rect(x, y, width, height) }
    }

    /// Shorthand for an `Object::Svg` with the given properties.
    pub fn svg(x: i32, y: i32, width: u32, height: u32, svg: CacheableSvg, color: u32) -> (r:
        Object)
        ensures
            r matches Object::Svg { svg: s, color: c, rect } && s == svg && c == color && rect
                == (Rect { x, y, width, height }),
    {
        Object::Svg { svg, color, rect: Self::rect(x, y, width, height) }
    }

    /// Multiplies the object by a scale factor. Scaling by exactly one
    /// returns the input unchanged without recomputing any field.
    pub fn scale_by(self, scale: Scale) -> (r: Object)
        ensures
            r == spec_scale_object(self, scale.millis as int),
    {
        if scale.is_one() {
            return self;
        }
        match self {
            Object::Rectangle { rounding, color, rect } => Object::Rectangle {
                rounding,
                color,
                rect: rect.scale_by(scale),
            },
            Object::Text { text, font, size_millis, color, position } => Object::Text {
                text,
                font,
                size_millis: crate::scale::scale_u32(size_millis, scale),
                color,
                position: scale_position(position, scale),
            },
            Object::Paragraph { position, paragraph } => Object::Paragraph {
                position: scale_position(position, scale),
                paragraph,
            },
            Object::Image { rect, image } => Object::Image { rect: rect.scale_by(scale), image },
            Object::Svg { rect, svg, color } => Object::Svg {
                rect: rect.scale_by(scale),
                svg,
                color,
            },
        }
    }

    /// Multiplies the object by the window's current scale, turning logical
    /// units into the physical units the renderer is handed.
    pub fn scale_with(self, window: &Window) -> (r: Object)
        ensures
            r == spec_scale_object(self, window.model().current_scale.millis as int),
    {
        self.scale_by(window.current_scale())
    }
}

fn scale_position(p: Position, scale: Scale) -> (r: Position)
    ensures
        r == spec_scale_position(p, scale.millis as int),
{
    Position {
        x: crate::scale::scale_i32(p.x, scale),
        y: crate::scale::scale_i32(p.y, scale),
    }
}

/// A color split into its four 8-bit channels.
#[derive(Debug, Clone, Copy, PartialEq, Eq, Structural)]
pub struct Color {
    pub r: u8,
    pub g: u8,
    pub b: u8,
    pub a: u8,
}

/// Splits a packed `0xRRGGBBAA` color into its four channels.
pub fn color_from_rgba(rgba: u32) -> (c: Color)
    ensures
        c.r == (rgba >> 24) as u8,
        c.g == (rgba >> 16) as u8,
        c.b == (rgba >> 8) as u8,
        c.a == rgba as u8,
{
    let (r, g, b, a) = (rgba >> 24, rgba >> 16, rgba >> 8, rgba);
    Color { r: r as u8, g: g as u8, b: b as u8, a: a as u8 }
}

} // verus!
