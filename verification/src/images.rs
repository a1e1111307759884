//! Decoded image containers and image decoding.
//!
//! A `CacheableImage` stores the decoded pixels, their format, the image's
//! dimensions, and a content identity assigned at decode time for cheap
//! cache lookup.

use vstd::prelude::*;
use crate::errors::RegisterError;
use crate::identity::fresh_uuid;
use crate::structs::Dimensions;

verus! {

/// The layout of a decoded pixel buffer.
#[derive(Debug, Clone, Copy, PartialEq, Eq, Structural)]
pub enum PixelFormat {
    RGB8,
    RGBA8,
    RGBA8Premul,
}

impl PixelFormat {
    /// How many bytes one pixel occupies in this format.
    pub open spec fn bytes_per_pixel(&self) -> int {
        match self {
            PixelFormat::RGB8 => 3,
            PixelFormat::RGBA8 => 4,
            PixelFormat::RGBA8Premul => 4,
        }
    }
}

/// A cheap-to-clone, decoded image container.
#[derive(Debug, Clone)]
pub struct CacheableImage {
    pub pixels: Vec<u8>,
    pub format: PixelFormat,
    pub dimensions: Dimensions,
    pub uuid: u128,
}

/// What decoding an encoded byte stream yields: the decoded width, height
/// and RGBA8 pixels, or nothing when the bytes are malformed. The result
/// depends on the bytes alone.
pub uninterp spec fn image_rgba(bytes: Seq<u8>) -> Option<(u32, u32, Seq<u8>)>;

/// Relies on `image::load_from_memory` and `DynamicImage::into_rgba8`:
/// decodes an encoded image into an RGBA8 buffer holding four bytes per
/// pixel of the decoded dimensions, erring on malformed bytes.
#[verifier::external_body]
fn decode_bytes_rgba(bytes: &[u8]) -> (r: Option<(u32, u32, Vec<u8>)>)
    ensures
        match r {
            Some((w, h, p)) => image_rgba(bytes@) == Some((w, h, p@)) && p@.len() == w as int
                * h as int * 4,
            None => image_rgba(bytes@) is None,
        },
{
    match image::load_from_memory(bytes) {
        Ok(img) => {
            let rgba = img.into_rgba8();
            let (w, h) = (rgba.width(), rgba.height());
            Some((w, h, rgba.into_raw()))
        },
        Err(_) => None,
    }
}

/// Relies on `DynamicImage::into_rgba8` (with `width`/`height`): converts
/// an already decoded image into an RGBA8 buffer. Every image buffer is
/// at least four bytes per pixel of its dimensions — the invariant
/// `ImageBuffer::from_raw` enforces — but a caller-built buffer may be
/// longer than that, so no exact length is promised; the caller trims.
#[verifier::external_body]
fn dynamic_image_rgba(img: image::DynamicImage) -> (r: (u32, u32, Vec<u8>))
    ensures
        r.2@.len() >= r.0 as int * r.1 as int * 4,
{
    let (w, h) = (img.width(), img.height());
    let rgba = img.into_rgba8();
    (w, h, rgba.into_raw())
}

#[verifier::external_type_specification]
#[verifier::external_body]
pub struct ExDynamicImage(image::DynamicImage);

impl CacheableImage {
    /// The pixel buffer holds exactly one pixel's bytes per coordinate.
    pub open spec fn wf(&self) -> bool {
        self.pixels@.len() == self.dimensions.width as int * self.dimensions.height as int
            * self.format.bytes_per_pixel()
    }

    /// Creates a `CacheableImage` from an image's encoded bytes, decoding
    /// them with the `image` crate; malformed bytes are a recoverable
    /// registration error.
    pub fn from_encoded(bytes: &[u8]) -> (r: Result<Self, RegisterError>)
        ensures
            match r {
                Ok(img) => {
                    &&& image_rgba(bytes@) matches Some((w, h, p))
                    &&& img.pixels@ == p
                    &&& img.dimensions == (Dimensions { width: w, height: h })
                    &&& img.format == PixelFormat::RGBA8
                    &&& img.wf()
                },
                Err(e) => image_rgba(bytes@) is None && e is Image,
            },
    {
        match decode_bytes_rgba(bytes) {
            Some((width, height, pixels)) => {
                Ok(Self::with_identity(pixels, PixelFormat::RGBA8, Dimensions::new(width, height)))
            },
            None => Err(RegisterError::Image("could not decode image bytes".to_string())),
        }
    }

    /// Creates a `CacheableImage` from an already decoded `image` crate
    /// image, converted to RGBA8. An oversized source buffer — which the
    /// `image` crate permits — is trimmed to exactly four bytes per
    /// pixel.
    pub fn from_image(image: image::DynamicImage) -> (r: Self)
        ensures
            r.format == PixelFormat::RGBA8,
            r.wf(),
    {
        let (width, height, mut pixels) = dynamic_image_rgba(image);
        let available: usize = pixels.len();
        proof {
            assert(width as int * height as int * 4 <= available as int);
        }
        let exact: usize = (width as usize) * (height as usize) * 4;
        pixels.truncate(exact);
        Self::with_identity(pixels, PixelFormat::RGBA8, Dimensions::new(width, height))
    }

    /// Creates a `CacheableImage` from encoded bytes through the `image`
    /// crate; same contract as `from_encoded`.
    pub fn from_bytes_image(bytes: &[u8]) -> (r: Result<Self, RegisterError>)
        ensures
            match r {
                Ok(img) => {
                    &&& image_rgba(bytes@) matches Some((w, h, p))
                    &&& img.pixels@ == p
                    &&& img.dimensions == (Dimensions { width: w, height: h })
                    &&& img.format == PixelFormat::RGBA8
                    &&& img.wf()
                },
                Err(e) => image_rgba(bytes@) is None && e is Image,
            },
    {
        Self::from_encoded(bytes)
    }

    /// Wraps an already decoded pixel buffer under a fresh content
    /// identity.
    pub fn new(pixels: Vec<u8>, format: PixelFormat, dimensions: Dimensions) -> (r: Self)
        requires
            pixels@.len() == dimensions.width as int * dimensions.height as int
                * format.bytes_per_pixel(),
        ensures
            r.pixels@ == pixels@,
            r.format == format,
            r.dimensions == dimensions,
            r.wf(),
    {
        Self::with_identity(pixels, format, dimensions)
    }

    fn with_identity(pixels: Vec<u8>, format: PixelFormat, dimensions: Dimensions) -> (r: Self)
        ensures
            r.pixels@ == pixels@,
            r.format == format,
            r.dimensions == dimensions,
    {
        Self { pixels, format, dimensions, uuid: fresh_uuid() }
    }

    /// The decoded pixel bytes.
    pub fn pixels(&self) -> (r: &Vec<u8>)
        ensures
            r@ == self.pixels@,
    {
        &self.pixels
    }

    /// The pixel buffer's format.
    pub fn format(&self) -> (r: &PixelFormat)
        ensures
            r == self.format,
    {
        &self.format
    }

    /// The image's width and height.
    pub fn dimensions(&self) -> (r: &Dimensions)
        ensures
            r == self.dimensions,
    {
        &self.dimensions
    }

    /// The content identity assigned at decode time.
    pub fn uuid(&self) -> (r: u128)
        ensures
            r == self.uuid,
    {
        self.uuid
    }
}

/// What expanding an RGB8 buffer to RGBA8 yields: each pixel's three bytes
/// carry over and a fully opaque alpha byte follows them.
pub open spec fn spec_rgb8_to_rgba8(p: Seq<u8>) -> Seq<u8> {
    Seq::new(
        (p.len() / 3 * 4) as nat,
        |i: int|
            if i % 4 == 3 {
                255u8
            } else {
                p[3 * (i / 4) + i % 4]
            },
    )
}

/// Expands an RGB8 pixel buffer to RGBA8 by appending a fully opaque alpha
/// byte to every pixel, as backends without RGB8 support need.
pub fn rgb8_to_rgba8(pixels: &[u8]) -> (r: Vec<u8>)
    requires
        pixels@.len() % 3 == 0,
    ensures
        r@ == spec_rgb8_to_rgba8(pixels@),
{
    let ghost expected = spec_rgb8_to_rgba8(pixels@);
    let mut out: Vec<u8> = Vec::new();
    let n: usize = pixels.len();
    let pixel_count: usize = n / 3;
    proof {
        assert(3 * (pixels@.len() / 3) <= pixels@.len());
    }
    let mut k: usize = 0;
    while k < pixel_count
        invariant
            pixels@.len() == n,
            pixel_count == pixels@.len() / 3,
            3 * pixel_count <= pixels@.len(),
            k <= pixel_count,
            out@ == expected.take(4 * k as int),
            expected == spec_rgb8_to_rgba8(pixels@),
        decreases pixel_count - k,
    {
        out.push(pixels[3 * k]);
        out.push(pixels[3 * k + 1]);
        out.push(pixels[3 * k + 2]);
        out.push(255);
        proof {
            let kk = k as int;
            assert((4 * kk) % 4 == 0 && (4 * kk) / 4 == kk) by (nonlinear_arith);
            assert((4 * kk + 1) % 4 == 1 && (4 * kk + 1) / 4 == kk) by (nonlinear_arith);
            assert((4 * kk + 2) % 4 == 2 && (4 * kk + 2) / 4 == kk) by (nonlinear_arith);
            assert((4 * kk + 3) % 4 == 3) by (nonlinear_arith);
            assert(out@ =~= expected.take(4 * (kk + 1)));
        }
        k = k + 1;
    }
    proof {
        assert(expected.take(4 * pixel_count as int) =~= expected);
    }
    out
}

} // verus!
