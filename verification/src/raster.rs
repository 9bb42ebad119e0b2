//! Colours, blend modes and raster images, and the encoding of an image as a
//! PNG file and as a `data:` URL.

use crate::transform::identity_transform;
use base64::Engine;
use glam::DAffine2;
use image::ImageEncoder;
use vstd::prelude::*;

verus! {

/// The bit pattern of the single-precision number 1.0.
pub const ONE: u32 = 0x3F80_0000;

/// Whether `bits` is the bit pattern of a single-precision number between 0
/// and 1, both included. Among non-negative numbers, the order of the bit
/// patterns is the order of the numbers.
pub open spec fn is_unit_interval(bits: u32) -> bool {
    bits <= ONE
}

/// How a layer is combined with what lies below it.
#[derive(Clone, Copy, Debug, PartialEq, Eq, Structural, Hash)]
pub enum BlendMode {
    Normal,
    Multiply,
    Darken,
    ColorBurn,
    Screen,
    Lighten,
    ColorDodge,
    Overlay,
    SoftLight,
    HardLight,
    Difference,
    Exclusion,
    Hue,
    Saturation,
    Color,
    Luminosity,
}

/// A colour with four channels, each held as the bit pattern of a
/// single-precision number.
#[derive(Clone, Copy, Debug, PartialEq, Eq, Structural, Hash)]
pub struct Color {
    pub red: u32,
    pub green: u32,
    pub blue: u32,
    pub alpha: u32,
}

impl Color {
    /// Opaque white: every channel is 1.0.
    pub open spec fn white_spec() -> Color {
        Color { red: ONE, green: ONE, blue: ONE, alpha: ONE }
    }

    /// Opaque white.
    pub fn white() -> (color: Color)
        ensures
            color == Color::white_spec(),
    {
        Color { red: ONE, green: ONE, blue: ONE, alpha: ONE }
    }
}

/// What an `Image` holds.
pub struct ImageModel {
    pub width: u32,
    pub height: u32,
    pub data: Seq<u8>,
    pub base64_string: Option<Seq<char>>,
}

/// A raster image: rows of pixels from the top, each pixel four bytes in the
/// order red, green, blue, alpha.
#[derive(Debug, PartialEq)]
pub struct Image {
    pub width: u32,
    pub height: u32,
    pub data: Vec<u8>,
    /// The image as a `data:` URL, once it has been encoded.
    pub base64_string: Option<String>,
}

impl View for Image {
    type V = ImageModel;

    open spec fn view(&self) -> ImageModel {
        ImageModel {
            width: self.width,
            height: self.height,
            data: self.data@,
            base64_string: match self.base64_string {
                Some(text) => Some(text@),
                None => None,
            },
        }
    }
}

impl ImageModel {
    /// The pixel data has four bytes for each of `width * height` pixels.
    pub open spec fn well_formed(self) -> bool {
        self.data.len() == 4 * self.width * self.height
    }

    /// The image covers no pixel.
    pub open spec fn has_no_area(self) -> bool {
        self.width == 0 || self.height == 0
    }
}

/// The PNG file that `image`'s encoder writes for 8-bit RGBA pixel data of the
/// given size, or `None` where the encoder reports an error.
pub uninterp spec fn png_of(width: u32, height: u32, data: Seq<u8>) -> Option<Seq<u8>>;

/// The text that the standard base64 alphabet, with padding, gives for `bytes`.
pub uninterp spec fn base64_of(bytes: Seq<u8>) -> Seq<char>;

/// `image::codecs::png::PngEncoder::write_image` with `ColorType::Rgba8`,
/// writing into a fresh vector. The encoder asserts that the buffer holds
/// four bytes per pixel, so only such buffers are admitted.
#[verifier::external_body]
fn encode_png(width: u32, height: u32, data: &Vec<u8>) -> (png: Option<Vec<u8>>)
    requires
        data@.len() == 4 * width * height,
    ensures
        match png {
            Some(bytes) => png_of(width, height, data@) == Some(bytes@),
            None => png_of(width, height, data@).is_none(),
        },
{
    let mut png = Vec::new();
    let encoder = image::codecs::png::PngEncoder::new(&mut png);
    match encoder.write_image(data, width, height, image::ColorType::Rgba8) {
        Ok(()) => Some(png),
        Err(_) => None,
    }
}

/// `Engine::encode_string` of `base64::engine::general_purpose::STANDARD`:
/// appends the base64 text of `bytes` to `text`.
#[verifier::external_body]
fn append_base64(bytes: &Vec<u8>, text: &mut String)
    ensures
        final(text)@ == old(text)@ + base64_of(bytes@),
{
    base64::engine::general_purpose::STANDARD.encode_string(bytes, text)
}

/// The `data:` URL that embeds the PNG file `png`.
pub open spec fn data_url_of(png: Seq<u8>) -> Seq<char> {
    "data:image/png;base64,"@ + base64_of(png)
}

/// Builds the `data:` URL that embeds the PNG file `png`.
pub fn data_url(png: &Vec<u8>) -> (url: String)
    ensures
        url@ == data_url_of(png@),
{
    let mut url = "data:image/png;base64,".to_owned();
    append_base64(png, &mut url);
    url
}

impl Image {
    /// An image of the given size over the given pixel data, not yet encoded.
    pub fn new(width: u32, height: u32, data: Vec<u8>) -> (image: Image)
        ensures
            image@ == (ImageModel { width, height, data: data@, base64_string: None }),
    {
        Image { width, height, data, base64_string: None }
    }

    /// Whether the pixel data has four bytes for each pixel.
    pub fn is_well_formed(&self) -> (ok: bool)
        ensures
            ok == self@.well_formed(),
    {
        assert(self.width * self.height <= 0xFFFF_FFFF * 0xFFFF_FFFF) by (nonlinear_arith)
            requires
                self.width <= 0xFFFF_FFFF,
                self.height <= 0xFFFF_FFFF,
        ;
        let pixels: u64 = (self.width as u64) * (self.height as u64);
        let expected: u128 = 4 * (pixels as u128);
        assert(expected == 4 * self.width * self.height) by (nonlinear_arith)
            requires
                expected == 4 * pixels,
                pixels == self.width * self.height,
        ;
        self.data.len() as u128 == expected
    }

    /// Encodes the image as a PNG file. `None` where the encoder reports an
    /// error, as it does for an image without pixels.
    pub fn to_png(&self) -> (png: Option<Vec<u8>>)
        requires
            self@.well_formed(),
        ensures
            match png {
                Some(bytes) => png_of(self.width, self.height, self.data@) == Some(bytes@),
                None => png_of(self.width, self.height, self.data@).is_none(),
            },
    {
        encode_png(self.width, self.height, &self.data)
    }

}

impl Clone for Image {
    /// A copy of the image that shares nothing with it.
    fn clone(&self) -> (copy: Image)
        ensures
            copy@ == self@,
    {
        let base64_string = match &self.base64_string {
            Some(text) => Some(text.clone()),
            None => None,
        };
        Image { width: self.width, height: self.height, data: self.data.clone(), base64_string }
    }
}

/// What an `ImageFrame` holds.
pub struct ImageFrameModel {
    pub image: ImageModel,
    pub transform: DAffine2,
}

/// A raster image placed in the scene: the transform maps the unit square
/// onto the frame's extent.
#[derive(Debug, PartialEq)]
pub struct ImageFrame {
    pub image: Image,
    pub transform: DAffine2,
}

impl View for ImageFrame {
    type V = ImageFrameModel;

    open spec fn view(&self) -> ImageFrameModel {
        ImageFrameModel { image: self.image@, transform: self.transform }
    }
}

impl ImageFrame {
    /// A frame that shows `image` on the unit square.
    pub fn new(image: Image) -> (frame: ImageFrame)
        ensures
            frame@ == (ImageFrameModel { image: image@, transform: crate::transform::identity() }),
    {
        ImageFrame { image, transform: identity_transform() }
    }
}

impl Clone for ImageFrame {
    /// A copy of the frame that shares nothing with it.
    fn clone(&self) -> (copy: ImageFrame)
        ensures
            copy@ == self@,
    {
        ImageFrame { image: self.image.clone(), transform: self.transform }
    }
}

} // verus!
