//! Textures: which decoded images the renderer takes, and how they are
//! sampled once resident on the GPU.

use vstd::prelude::*;
use vstd::string::*;
use crate::gpu::GpuCommand;
use crate::gpu::GpuCommandView;

verus! {

/// The pixel formats that the renderer uploads.
#[derive(Clone, Copy, PartialEq, Eq, Structural, Debug)]
pub enum TextureFormat {
    /// Three 8-bit channels.
    Rgb8,
    /// Four 8-bit channels.
    Rgba8,
}

impl TextureFormat {
    /// Bytes that one pixel takes.
    pub open spec fn pixel_size(self) -> int {
        match self {
            TextureFormat::Rgb8 => 3,
            TextureFormat::Rgba8 => 4,
        }
    }

    /// Bytes that one pixel takes.
    pub fn bytes_per_pixel(&self) -> (n: u8)
        ensures
            n == self.pixel_size(),
    {
        match self {
            TextureFormat::Rgb8 => 3,
            TextureFormat::Rgba8 => 4,
        }
    }
}

/// What a decoder reports of an image besides its pixels: the dimensions in
/// pixels, the number of channels of a pixel and the bits a pixel takes.
#[derive(Clone, Copy, PartialEq, Eq, Structural, Debug)]
pub struct ImageHeader {
    pub width: u32,
    pub height: u32,
    pub channels: u8,
    pub bits_per_pixel: u16,
}

/// A decoded image: what the decoder reports of it, and its pixels row by
/// row from the top.
#[derive(PartialEq, Debug)]
pub struct DecodedImage {
    pub header: ImageHeader,
    pub pixels: Vec<u8>,
}

/// A `DecodedImage` with its pixels as a sequence of bytes.
pub struct DecodedImageView {
    pub header: ImageHeader,
    pub pixels: Seq<u8>,
}

impl View for DecodedImage {
    type V = DecodedImageView;

    open spec fn view(&self) -> DecodedImageView {
        DecodedImageView { header: self.header, pixels: self.pixels@ }
    }
}

impl ImageHeader {
    /// Bytes that the pixels of an image with this header take: its width
    /// times its height times the bytes of one pixel.
    pub open spec fn pixel_bytes(self) -> int {
        self.width * self.height * (self.bits_per_pixel as int / 8)
    }

    /// Whether each channel of a pixel is one byte, so that the pixel bytes
    /// read the same on every machine.
    pub open spec fn byte_channels(self) -> bool {
        self.bits_per_pixel == 8 * self.channels
    }
}

/// How a texture coordinate outside the unit square is brought back into it.
#[derive(Clone, Copy, PartialEq, Eq, Structural, Debug)]
pub enum Wrap {
    Repeat,
    MirroredRepeat,
    ClampToEdge,
}

/// How a texture is sampled between its pixels.
#[derive(Clone, Copy, PartialEq, Eq, Structural, Debug)]
pub enum Filter {
    Nearest,
    Linear,
}

/// The sampling state of a texture.
#[derive(Clone, Copy, PartialEq, Eq, Structural, Debug)]
pub struct Sampling {
    pub wrap_s: Wrap,
    pub wrap_t: Wrap,
    pub min_filter: Filter,
    pub mag_filter: Filter,
}

/// The sampling state that every texture of the renderer has: repeat on
/// both axes, linear filtering when minified and when magnified. No mipmaps
/// are made.
pub open spec fn fixed_sampling() -> Sampling {
    Sampling {
        wrap_s: Wrap::Repeat,
        wrap_t: Wrap::Repeat,
        min_filter: Filter::Linear,
        mag_filter: Filter::Linear,
    }
}

/// Why an image cannot become a texture.
#[derive(PartialEq, Debug)]
pub enum TextureError {
    /// The file could not be read or decoded; the text says why.
    Decode(String),
    /// The image decoded, but its pixels are neither three nor four 8-bit
    /// channels.
    UnsupportedFormat { channels: u8, bits_per_pixel: u16 },
}

/// The texture format of an image with this header: three channels in 24
/// bits, or four in 32. Any other image has none.
pub open spec fn format_of(header: ImageHeader) -> Option<TextureFormat> {
    if header.channels == 3 && header.bits_per_pixel == 24 {
        Some(TextureFormat::Rgb8)
    } else if header.channels == 4 && header.bits_per_pixel == 32 {
        Some(TextureFormat::Rgba8)
    } else {
        None
    }
}

/// The texture format of a decoded image, if the renderer takes it.
pub fn texture_format(header: &ImageHeader) -> (format: Option<TextureFormat>)
    ensures
        format == format_of(*header),
{
    if header.channels == 3 && header.bits_per_pixel == 24 {
        Some(TextureFormat::Rgb8)
    } else if header.channels == 4 && header.bits_per_pixel == 32 {
        Some(TextureFormat::Rgba8)
    } else {
        None
    }
}

/// An image ready for upload as a texture: its dimensions, its format, the
/// sampling state to fix, and exactly the pixel data that the dimensions and
/// the format call for.
#[derive(PartialEq, Debug)]
pub struct TextureImage {
    width: u32,
    height: u32,
    format: TextureFormat,
    sampling: Sampling,
    pixels: Vec<u8>,
}

/// What a `TextureImage` holds.
pub struct TextureImageView {
    pub width: u32,
    pub height: u32,
    pub format: TextureFormat,
    pub sampling: Sampling,
    pub pixels: Seq<u8>,
}

impl View for TextureImage {
    type V = TextureImageView;

    closed spec fn view(&self) -> TextureImageView {
        TextureImageView {
            width: self.width,
            height: self.height,
            format: self.format,
            sampling: self.sampling,
            pixels: self.pixels@,
        }
    }
}

impl TextureImage {
    #[verifier::type_invariant]
    spec fn well_formed(self) -> bool {
        &&& self.pixels@.len() == self.width * self.height * self.format.pixel_size()
        &&& self.sampling == fixed_sampling()
    }

    /// Width in pixels.
    pub fn width(&self) -> (width: u32)
        ensures
            width == self@.width,
    {
        self.width
    }

    /// Height in pixels.
    pub fn height(&self) -> (height: u32)
        ensures
            height == self@.height,
    {
        self.height
    }

    /// Format of the pixel data.
    pub fn format(&self) -> (format: TextureFormat)
        ensures
            format == self@.format,
    {
        self.format
    }

    /// The sampling state to fix on the texture.
    pub fn sampling(&self) -> (sampling: Sampling)
        ensures
            sampling == self@.sampling,
            sampling == fixed_sampling(),
    {
        proof {
            use_type_invariant(self);
        }
        self.sampling
    }

    /// The pixel data to upload: one pixel after the other, row by row,
    /// exactly as many bytes as the dimensions and the format call for.
    pub fn pixels(&self) -> (pixels: &Vec<u8>)
        ensures
            pixels@ == self@.pixels,
            pixels@.len() == self@.width * self@.height * self@.format.pixel_size(),
    {
        proof {
            use_type_invariant(self);
        }
        &self.pixels
    }
}

/// The image that `bytes` decode to when read as the file `path`, whose
/// extension, as `std::path::Path` reads it, says in which format; `None`
/// where they do not decode. The
/// pixels stand for the decoded bytes where each channel is one byte; of an
/// image with wider channels, whose bytes lie in the machine's own order,
/// only the header is meant.
pub uninterp spec fn decoded_image(path: Seq<char>, bytes: Seq<u8>) -> Option<DecodedImageView>;

/// `image::ImageError`, which the library carries from the decoder to its
/// own error without looking inside.
#[verifier::external_type_specification]
#[verifier::external_body]
pub struct ExImageError(image::ImageError);

/// Decodes `bytes` with `image::io::Reader::decode`, the reader's format set
/// from the extension of `path` by `image::ImageFormat::from_path`, as the
/// reader of an opened file has it. The decoder is built with the PNG format
/// alone; under any other extension it returns an error.
///
/// Trusted of the decoder: that it returns; that the same bytes under the
/// same path give the same image or fail alike; that the header of the result
/// is its own report (`width`, `height`, and `channel_count` and
/// `bits_per_pixel` of `color`); and that `into_bytes` hands out the buffer
/// it decoded into, which it allocated with width times height times the
/// bytes of a pixel.
#[verifier::external_body]
fn decode(path: &str, bytes: &[u8]) -> (r: Result<DecodedImage, image::ImageError>)
    ensures
        match r {
            Ok(decoded) => {
                &&& decoded_image(path@, bytes@) matches Some(image)
                &&& image.header == decoded.header
                &&& decoded.header.byte_channels() ==> image.pixels == decoded.pixels@
                &&& decoded.pixels@.len() == decoded.header.pixel_bytes()
            },
            Err(_) => decoded_image(path@, bytes@) is None,
        },
{
    let mut reader = image::io::Reader::new(std::io::Cursor::new(bytes));
    if let Ok(format) = image::ImageFormat::from_path(path) {
        reader.set_format(format);
    }
    let img = reader.decode()?;
    let color = img.color();
    let header = ImageHeader {
        width: img.width(),
        height: img.height(),
        channels: color.channel_count(),
        bits_per_pixel: color.bits_per_pixel(),
    };
    Ok(DecodedImage { header, pixels: img.into_bytes() })
}

/// The text of an `image::ImageError`, as its `Display` gives it. Trusted
/// to return; nothing is claimed of the text.
#[verifier::external_body]
fn describe(error: &image::ImageError) -> (text: String) {
    format!("{}", error)
}

/// A 2D texture resident on the GPU.
#[derive(PartialEq, Debug)]
pub struct Texture {
    texture: u32,
    width: u32,
    height: u32,
    format: TextureFormat,
}

/// What a `Texture` records.
pub struct TextureView {
    pub texture: u32,
    pub width: u32,
    pub height: u32,
    pub format: TextureFormat,
}

impl View for Texture {
    type V = TextureView;

    closed spec fn view(&self) -> TextureView {
        TextureView {
            texture: self.texture,
            width: self.width,
            height: self.height,
            format: self.format,
        }
    }
}

impl Texture {
    /// Makes a decoded image ready for upload.
    ///
    /// An image whose pixels are neither three nor four 8-bit channels is
    /// refused as `UnsupportedFormat`, never converted. One of a supported
    /// format whose pixel data is not exactly what its dimensions call for is
    /// refused as `Decode`. Any other image comes back with its dimensions,
    /// its format, its pixels untouched, and the fixed sampling state.
    pub fn from_decoded(decoded: DecodedImage) -> (r: Result<TextureImage, TextureError>)
        ensures
            match format_of(decoded.header) {
                None => r matches Err(e) && e == (TextureError::UnsupportedFormat {
                    channels: decoded.header.channels,
                    bits_per_pixel: decoded.header.bits_per_pixel,
                }),
                Some(format) => if decoded.pixels@.len() == decoded.header.pixel_bytes() {
                    r matches Ok(image) && image@ == (TextureImageView {
                        width: decoded.header.width,
                        height: decoded.header.height,
                        format,
                        sampling: fixed_sampling(),
                        pixels: decoded.pixels@,
                    })
                } else {
                    r matches Err(e) && e is Decode
                },
            },
    {
        let header = decoded.header;
        let format = match texture_format(&header) {
            Some(format) => format,
            None => {
                return Err(
                    TextureError::UnsupportedFormat {
                        channels: header.channels,
                        bits_per_pixel: header.bits_per_pixel,
                    },
                );
            },
        };
        let bytes_per_pixel = format.bytes_per_pixel();
        assert(header.width * header.height * bytes_per_pixel <= 0xffff_ffff * 0xffff_ffff * 4
            && header.width * header.height <= 0xffff_ffff * 0xffff_ffff) by (nonlinear_arith)
            requires
                header.width <= 0xffff_ffff,
                header.height <= 0xffff_ffff,
                0 <= bytes_per_pixel <= 4,
        ;
        let expected: u128 = (header.width as u128) * (header.height as u128) * (
        bytes_per_pixel as u128);
        if decoded.pixels.len() as u128 != expected {
            return Err(
                TextureError::Decode(
                    String::from_str("pixel data does not match the image's dimensions"),
                ),
            );
        }
        Ok(
            TextureImage {
                width: header.width,
                height: header.height,
                format,
                sampling: Sampling {
                    wrap_s: Wrap::Repeat,
                    wrap_t: Wrap::Repeat,
                    min_filter: Filter::Linear,
                    mag_filter: Filter::Linear,
                },
                pixels: decoded.pixels,
            },
        )
    }

    /// Decodes the contents `bytes` of the image file `path` and makes the
    /// image ready for upload.
    ///
    /// Fails with `Decode` exactly where the bytes do not decode in the
    /// format that the path's extension names, and with `UnsupportedFormat`
    /// exactly where they decode to pixels that are neither three nor four
    /// 8-bit channels. Every other image comes back with the decoded
    /// dimensions, format and pixels, and the fixed sampling state.
    pub fn from_path(path: &str, bytes: &[u8]) -> (r: Result<TextureImage, TextureError>)
        ensures
            match decoded_image(path@, bytes@) {
                None => r matches Err(e) && e is Decode,
                Some(decoded) => match format_of(decoded.header) {
                    None => r matches Err(e) && e == (TextureError::UnsupportedFormat {
                        channels: decoded.header.channels,
                        bits_per_pixel: decoded.header.bits_per_pixel,
                    }),
                    Some(format) => r matches Ok(image) && image@ == (TextureImageView {
                        width: decoded.header.width,
                        height: decoded.header.height,
                        format,
                        sampling: fixed_sampling(),
                        pixels: decoded.pixels,
                    }),
                },
            },
    {
        match decode(path, bytes) {
            Ok(decoded) => Texture::from_decoded(decoded),
            Err(error) => Err(TextureError::Decode(describe(&error))),
        }
    }

    /// Records the texture that `image` became when uploaded under `handle`.
    pub fn new(image: &TextureImage, handle: u32) -> (texture: Texture)
        ensures
            texture@ == (TextureView {
                texture: handle,
                width: image@.width,
                height: image@.height,
                format: image@.format,
            }),
    {
        Texture { texture: handle, width: image.width, height: image.height, format: image.format }
    }

    /// The GPU's handle of the texture.
    pub fn handle(&self) -> (handle: u32)
        ensures
            handle == self@.texture,
    {
        self.texture
    }

    /// Width in pixels.
    pub fn width(&self) -> (width: u32)
        ensures
            width == self@.width,
    {
        self.width
    }

    /// Height in pixels.
    pub fn height(&self) -> (height: u32)
        ensures
            height == self@.height,
    {
        self.height
    }

    /// Pixel format of the uploaded data.
    pub fn format(&self) -> (format: TextureFormat)
        ensures
            format == self@.format,
    {
        self.format
    }

    /// The command that activates texture unit `unit` and binds this texture
    /// to it. Which sampler reads that unit is the caller's to arrange.
    pub fn bind(&self, unit: u32) -> (command: GpuCommand)
        ensures
            command@ == (GpuCommandView::BindTexture { unit, texture: self@.texture }),
    {
        GpuCommand::BindTexture { unit, texture: self.texture }
    }
}

} // verus!
