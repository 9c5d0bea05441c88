//! The asset loader: decodes a PNG byte stream into an in-memory pixel
//! buffer with a known color layout and stride, and picks the texture pixel
//! format for it.
//!
//! The decoder itself is the png crate; what it hands back is modeled as a
//! [`RawImage`] and validated here. The core recognizes only 8-bit RGB and
//! RGBA images; everything else is an asset decode error.

use vstd::prelude::*;

use crate::errors::SpriteError;

verus! {

/// The color layout of a decoded pixel buffer the core accepts.
#[derive(Debug, Clone, Copy, PartialEq, Eq, Structural)]
pub enum ColorLayout {
    /// Three bytes per pixel: red, green, blue.
    Rgb,
    /// Four bytes per pixel: red, green, blue, alpha.
    Rgba,
}

/// The texture pixel format chosen for a color layout.
#[derive(Debug, Clone, Copy, PartialEq, Eq, Structural)]
pub enum PixelFormat {
    /// 24-bit packed RGB.
    Rgb24,
    /// 32-bit ARGB with an alpha channel.
    Argb8888,
}

/// The color layout a PNG stream declares, as the decoder reports it.
#[derive(Debug, Clone, Copy, PartialEq, Eq, Structural)]
pub enum PngColor {
    Grayscale,
    Rgb,
    Indexed,
    GrayscaleAlpha,
    Rgba,
}

/// What the PNG decoder hands back for one image: dimensions, the output
/// color layout and bit depth, the byte count of one row, and the rows
/// themselves, packed row-major.
#[derive(Debug)]
pub struct RawImage {
    pub width: u32,
    pub height: u32,
    pub color: PngColor,
    pub bit_depth: u8,
    pub line_size: usize,
    pub data: Vec<u8>,
}

/// A decoded image the core accepts: an 8-bit RGB or RGBA pixel buffer of
/// `height` rows, each `stride` bytes long.
#[derive(Debug)]
pub struct DecodedImage {
    pub width: u32,
    pub height: u32,
    pub stride: usize,
    pub layout: ColorLayout,
    pub pixels: Vec<u8>,
}

/// Bytes per pixel of a color layout.
pub open spec fn bytes_per_pixel(layout: ColorLayout) -> int {
    match layout {
        ColorLayout::Rgb => 3,
        ColorLayout::Rgba => 4,
    }
}

impl DecodedImage {
    /// Well-formedness: the buffer holds exactly `height` rows of `stride`
    /// bytes, and a row holds exactly one pixel's bytes per column.
    pub open spec fn wf(&self) -> bool {
        &&& self.pixels@.len() == self.stride * self.height
        &&& self.stride == bytes_per_pixel(self.layout) * self.width
    }
}

/// The decoder's verdict on a byte stream: the image it decodes to, or
/// nothing when the stream is not a PNG the decoder accepts. Decoding is a
/// function of the bytes alone.
pub uninterp spec fn png_decoding(bytes: Seq<u8>) -> Option<RawImage>;

/// The raw image uses a color layout and bit depth the core accepts.
pub open spec fn supported_image(img: RawImage) -> bool {
    &&& (img.color == PngColor::Rgb || img.color == PngColor::Rgba)
    &&& img.bit_depth == 8
}

/// The accepted color layout of a supported raw image.
pub open spec fn layout_of_color(c: PngColor) -> ColorLayout {
    if c == PngColor::Rgb {
        ColorLayout::Rgb
    } else {
        ColorLayout::Rgba
    }
}

/// The raw image's buffer and row length agree with its dimensions.
pub open spec fn raw_image_consistent(img: RawImage) -> bool {
    &&& img.data@.len() == img.line_size * img.height
    &&& supported_image(img) ==> img.line_size == bytes_per_pixel(layout_of_color(img.color))
        * img.width
}

/// The decoded image carries exactly what the raw image held.
pub open spec fn decoded_matches(d: DecodedImage, img: RawImage) -> bool {
    &&& d.width == img.width
    &&& d.height == img.height
    &&& d.stride == img.line_size
    &&& d.layout == layout_of_color(img.color)
    &&& d.pixels@ == img.data@
}

/// Relies on the png crate's `ColorType`: names the decoder's output color
/// layout, variant for variant.
#[verifier::external_body]
fn color_model(c: png::ColorType) -> (r: PngColor) {
    match c {
        png::ColorType::Grayscale => PngColor::Grayscale,
        png::ColorType::Rgb => PngColor::Rgb,
        png::ColorType::Indexed => PngColor::Indexed,
        png::ColorType::GrayscaleAlpha => PngColor::GrayscaleAlpha,
        png::ColorType::Rgba => PngColor::Rgba,
    }
}

#[verifier::external_type_specification]
#[verifier::external_body]
pub struct ExPngColorType(png::ColorType);

/// Relies on the png crate's `Decoder`, `Reader::next_frame` and
/// `OutputInfo`: parses a PNG byte stream and decodes its first frame into
/// a packed row-major buffer of `line_size * height` bytes, where for the
/// 8-bit RGB and RGBA output layouts a row holds 3, respectively 4, bytes
/// per column.
#[verifier::external_body]
fn decode_png(bytes: &Vec<u8>) -> (r: Result<RawImage, String>)
    ensures
        r matches Ok(img) ==> png_decoding(bytes@) == Some(img),
        r matches Err(_) ==> png_decoding(bytes@) is None,
        r matches Ok(img) ==> {
            &&& img.data@.len() == img.line_size * img.height
            &&& (img.color == PngColor::Rgb && img.bit_depth == 8 ==> img.line_size == 3
                * img.width)
            &&& (img.color == PngColor::Rgba && img.bit_depth == 8 ==> img.line_size == 4
                * img.width)
        },
{
    let decoder = png::Decoder::new(std::io::Cursor::new(bytes.as_slice()));
    let mut reader = decoder.read_info().map_err(|e| e.to_string())?;
    let size = reader.output_buffer_size().ok_or_else(|| "image is too large".to_string())?;
    let mut data = vec![0u8; size];
    let info = reader.next_frame(&mut data).map_err(|e| e.to_string())?;
    data.truncate(info.buffer_size());
    Ok(RawImage {
        width: info.width, height: info.height, color: color_model(info.color_type),
        bit_depth: info.bit_depth as u8, line_size: info.line_size, data,
    })
}

/// Builds a decoded image from what the decoder handed back.
///
/// Accepts exactly the raw images whose color layout is 8-bit RGB or RGBA
/// and whose buffer agrees with its declared dimensions; everything else —
/// palette, grayscale, other bit depths — is an asset decode error.
pub fn build_decoded(img: RawImage) -> (r: Result<DecodedImage, SpriteError>)
    ensures
        r is Ok <==> supported_image(img) && raw_image_consistent(img),
        r matches Ok(d) ==> d.wf() && decoded_matches(d, img),
        r matches Err(e) ==> e matches SpriteError::AssetDecode(_),
{
    let layout = match img.color {
        PngColor::Rgb => ColorLayout::Rgb,
        PngColor::Rgba => ColorLayout::Rgba,
        _ => {
            return Err(asset_error("image color layout is not RGB or RGBA"));
        },
    };
    if img.bit_depth != 8 {
        return Err(asset_error("image is not 8 bits per channel"));
    }
    let bpp: usize = match layout {
        ColorLayout::Rgb => 3,
        ColorLayout::Rgba => 4,
    };
    let expected_stride = match bpp.checked_mul(img.width as usize) {
        Some(s) => s,
        None => {
            return Err(asset_error("image row length overflows"));
        },
    };
    if img.line_size != expected_stride {
        return Err(asset_error("image row length disagrees with its width"));
    }
    let data_len: usize = img.data.len();
    let expected_len = match img.line_size.checked_mul(img.height as usize) {
        Some(l) => l,
        None => {
            // The buffer cannot reach a length beyond usize, so it cannot
            // agree with dimensions whose product does.
            assert(img.data@.len() == data_len);
            return Err(asset_error("image buffer disagrees with its dimensions"));
        },
    };
    if data_len != expected_len {
        return Err(asset_error("image buffer disagrees with its dimensions"));
    }
    Ok(
        DecodedImage {
            width: img.width,
            height: img.height,
            stride: img.line_size,
            layout,
            pixels: img.data,
        },
    )
}

/// Decodes one image file's bytes, accepting exactly the PNG streams whose
/// output is 8-bit RGB or RGBA.
pub fn decode_image(bytes: &Vec<u8>) -> (r: Result<DecodedImage, SpriteError>)
    ensures
        r is Ok <==> (png_decoding(bytes@) matches Some(img) && supported_image(img)
            && raw_image_consistent(img)),
        r matches Ok(d) ==> (png_decoding(bytes@) matches Some(img) && d.wf() && decoded_matches(
            d,
            img,
        )),
        r matches Err(e) ==> e matches SpriteError::AssetDecode(_),
{
    match decode_png(bytes) {
        Ok(img) => build_decoded(img),
        Err(m) => Err(SpriteError::AssetDecode(m)),
    }
}

/// The texture pixel format for a color layout: RGB maps to 24-bit packed
/// RGB, RGBA to 32-bit ARGB with alpha enabled.
pub open spec fn spec_pixel_format(layout: ColorLayout) -> PixelFormat {
    match layout {
        ColorLayout::Rgb => PixelFormat::Rgb24,
        ColorLayout::Rgba => PixelFormat::Argb8888,
    }
}

/// Picks the texture pixel format for a decoded image's color layout.
pub fn pixel_format_of(layout: ColorLayout) -> (r: PixelFormat)
    ensures
        r == spec_pixel_format(layout),
{
    match layout {
        ColorLayout::Rgb => PixelFormat::Rgb24,
        ColorLayout::Rgba => PixelFormat::Argb8888,
    }
}

/// Builds an asset decode error from a static diagnostic.
fn asset_error(msg: &str) -> (r: SpriteError)
    ensures
        r matches SpriteError::AssetDecode(_),
{
    SpriteError::AssetDecode(msg.to_string())
}

} // verus!
