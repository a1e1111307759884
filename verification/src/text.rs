//! Text options and laid-out paragraph descriptions.
//!
//! Font point sizes are carried in thousandths of a point, so they can be
//! scaled linearly without rounding at pixel granularity. The actual text
//! shaping and layout belong to the rendering backend; this module holds
//! the plain description a backend lays out, and the line-count rule.

use vstd::prelude::*;

verus! {

/// How text behaves at the layout width.
#[derive(Debug, PartialEq, Eq, Clone, Copy, Structural)]
pub enum TextWrap {
    NoWrap,
    WordWrap,
}

impl Default for TextWrap {
    fn default() -> (r: Self)
        ensures
            r == TextWrap::WordWrap,
    {
        TextWrap::WordWrap
    }
}

/// How text behaves past the layout height.
#[derive(Debug, PartialEq, Eq, Clone, Copy, Structural)]
pub enum TextOverflow {
    Clip,
    Elide,
}

impl Default for TextOverflow {
    fn default() -> (r: Self)
        ensures
            r == TextOverflow::Elide,
    {
        TextOverflow::Elide
    }
}

/// How a piece of text should be drawn. `size_millis` is the font point
/// size in thousandths of a point.
#[derive(Debug, Clone)]
pub struct TextOptions {
    pub weight: u32,
    pub size_millis: u32,
    pub font: Option<String>,
    pub color: u32,
    pub italic: bool,
    pub underline: bool,
    pub wrap: TextWrap,
    pub overflow: TextOverflow,
}

impl Default for TextOptions {
    fn default() -> (r: Self)
        ensures
            r.weight == 500,
            r.size_millis == 16000,
            r.font is None,
            r.color == 0xFFFFFFFF,
            !r.italic,
            !r.underline,
            r.wrap == TextWrap::WordWrap,
            r.overflow == TextOverflow::Elide,
    {
        Self {
            weight: 500,
            size_millis: 16000,
            font: None,
            color: 0xFFFFFFFF,
            italic: false,
            underline: false,
            wrap: TextWrap::WordWrap,
            overflow: TextOverflow::Elide,
        }
    }
}

/// A paragraph description: the text with its layout constraints. A
/// rendering backend lays it out and keeps whatever native object results.
#[derive(Debug, Clone)]
pub enum Paragraph {
    Skia(ParagraphDescription),
}

/// The plain values a paragraph layout starts from.
#[derive(Debug, Clone)]
pub struct ParagraphDescription {
    pub text: String,
    pub width: u32,
    /// The maximum layout height; zero heights are normalized away.
    pub max_height: Option<u32>,
    pub options: TextOptions,
}

impl Paragraph {
    /// Describes a paragraph of `text` laid out at `width`, optionally
    /// bounded to `max_height`; a zero maximum height counts as no bound.
    pub fn new(text: String, width: u32, max_height: Option<u32>, options: TextOptions) -> (r:
        Self)
        ensures
            r matches Paragraph::Skia(d) && d.text@ == text@ && d.width == width && d.options
                == options && d.max_height == (match max_height {
                Some(h) => if h > 0 {
                    Some(h)
                } else {
                    None::<u32>
                },
                None => None::<u32>,
            }),
    {
        let normalized: Option<u32> = match max_height {
            Some(h) => if h > 0 {
                Some(h)
            } else {
                None
            },
            None => None,
        };
        Paragraph::Skia(
            ParagraphDescription { text, width, max_height: normalized, options },
        )
    }

    /// The options the paragraph was described with.
    pub fn options(&self) -> (r: &TextOptions)
        ensures
            self matches Paragraph::Skia(d) ==> r == d.options,
    {
        match self {
            Paragraph::Skia(d) => &d.options,
        }
    }
}

/// How many lines a bounded paragraph may lay out: one when it does not
/// wrap, and otherwise as many whole line heights as fit in the maximum
/// height. An unbounded paragraph has no line limit. `line_height_millis`
/// is the font's line height in thousandths of a pixel.
pub fn paragraph_max_lines(max_height: Option<u32>, wrap: TextWrap, line_height_millis: u32) -> (r:
    Option<u64>)
    requires
        line_height_millis >= 1,
    ensures
        max_height is None ==> r is None,
        (max_height, wrap) matches (Some(h), TextWrap::NoWrap) ==> r == Some(1u64),
        (max_height, wrap) matches (Some(h), TextWrap::WordWrap) ==> (r matches Some(m) && m
            == (h as int * 1000) / (line_height_millis as int)),
{
    match max_height {
        Some(h) => {
            match wrap {
                TextWrap::NoWrap => Some(1),
                TextWrap::WordWrap => {
                    let scaled: u64 = (h as u64) * 1000;
                    Some(scaled / (line_height_millis as u64))
                },
            }
        },
        None => None,
    }
}

} // verus!
