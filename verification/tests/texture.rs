use render_core::gpu::GpuCommand;
use render_core::texture::texture_format;
use render_core::texture::DecodedImage;
use render_core::texture::Filter;
use render_core::texture::ImageHeader;
use render_core::texture::Sampling;
use render_core::texture::Texture;
use render_core::texture::TextureError;
use render_core::texture::TextureFormat;
use render_core::texture::Wrap;

fn png(image: image::DynamicImage) -> Vec<u8> {
    let mut bytes = std::io::Cursor::new(Vec::new());
    image.write_to(&mut bytes, image::ImageOutputFormat::Png).unwrap();
    bytes.into_inner()
}

fn rgba_pixels(width: u32, height: u32) -> Vec<u8> {
    (0..width * height * 4).map(|i| (i * 7 % 251) as u8).collect()
}

#[test]
fn rgba8_image_loads_with_its_dimensions() {
    let pixels = rgba_pixels(5, 3);
    let source = image::RgbaImage::from_raw(5, 3, pixels.clone()).unwrap();
    let bytes = png(image::DynamicImage::ImageRgba8(source));
    let image = Texture::from_path("textures/crate.png", &bytes).unwrap();
    assert_eq!(image.width(), 5);
    assert_eq!(image.height(), 3);
    assert_eq!(image.format(), TextureFormat::Rgba8);
    assert_eq!(image.pixels(), &pixels);
    assert_ne!(image.pixels(), &bytes);
    let texture = Texture::new(&image, 42);
    assert_eq!(texture.handle(), 42);
    assert_eq!(texture.width(), 5);
    assert_eq!(texture.height(), 3);
    assert_eq!(texture.format(), TextureFormat::Rgba8);
}

#[test]
fn rgb8_image_loads_as_three_channels() {
    let pixels: Vec<u8> = (0..2 * 7 * 3).map(|i| i as u8).collect();
    let source = image::RgbImage::from_raw(2, 7, pixels.clone()).unwrap();
    let bytes = png(image::DynamicImage::ImageRgb8(source));
    let image = Texture::from_path("a.PNG", &bytes).unwrap();
    assert_eq!(image.width(), 2);
    assert_eq!(image.height(), 7);
    assert_eq!(image.format(), TextureFormat::Rgb8);
    assert_eq!(image.pixels(), &pixels);
}

#[test]
fn grayscale_image_is_unsupported() {
    let source = image::GrayImage::from_raw(4, 4, vec![128; 16]).unwrap();
    let bytes = png(image::DynamicImage::ImageLuma8(source));
    assert_eq!(
        Texture::from_path("gray.png", &bytes).unwrap_err(),
        TextureError::UnsupportedFormat { channels: 1, bits_per_pixel: 8 }
    );
}

#[test]
fn sixteen_bit_image_is_unsupported() {
    let source = image::ImageBuffer::<image::Rgb<u16>, Vec<u16>>::from_raw(2, 2, vec![1000; 12]).unwrap();
    let bytes = png(image::DynamicImage::ImageRgb16(source));
    assert_eq!(
        Texture::from_path("deep.png", &bytes).unwrap_err(),
        TextureError::UnsupportedFormat { channels: 3, bits_per_pixel: 48 }
    );
}

#[test]
fn bytes_that_are_no_image_fail_to_decode() {
    let result = Texture::from_path("broken.png", b"this is not a png");
    assert!(matches!(result, Err(TextureError::Decode(_))));
    let result = Texture::from_path("empty.png", b"");
    assert!(matches!(result, Err(TextureError::Decode(_))));
}

#[test]
fn format_goes_by_the_extension_of_the_path() {
    let source = image::RgbaImage::from_raw(1, 1, vec![1, 2, 3, 4]).unwrap();
    let bytes = png(image::DynamicImage::ImageRgba8(source));
    assert!(Texture::from_path("image.png", &bytes).is_ok());
    assert!(matches!(Texture::from_path("image", &bytes), Err(TextureError::Decode(_))));
    assert!(matches!(Texture::from_path("image.unknown", &bytes), Err(TextureError::Decode(_))));
    assert!(matches!(Texture::from_path("image.bmp", &bytes), Err(TextureError::Decode(_))));
    assert!(matches!(Texture::from_path("image.jpg", &bytes), Err(TextureError::Decode(_))));
    assert!(matches!(Texture::from_path("image.tga", &bytes), Err(TextureError::Decode(_))));
    assert!(matches!(Texture::from_path("dir.png/image", &bytes), Err(TextureError::Decode(_))));
}

#[test]
fn run_length_markers_in_a_row_are_refused_not_multiplied() {
    let mut bytes = b"#?RADIANCE\n\n-Y 1 +X 2\n".to_vec();
    bytes.extend_from_slice(&[5, 5, 5, 5]);
    for _ in 0..8 {
        bytes.extend_from_slice(&[1, 1, 1, 0]);
    }
    assert_eq!(bytes.len(), 58);
    assert!(matches!(Texture::from_path("sky.hdr", &bytes), Err(TextureError::Decode(_))));
}

#[test]
fn truncated_png_fails_to_decode() {
    let source = image::RgbaImage::from_raw(8, 8, rgba_pixels(8, 8)).unwrap();
    let bytes = png(image::DynamicImage::ImageRgba8(source));
    for cut in [0, 1, 8, 20, 33, bytes.len() / 2, bytes.len() - 13] {
        let result = Texture::from_path("cut.png", &bytes[..cut]);
        assert!(matches!(result, Err(TextureError::Decode(_))));
    }
}

#[test]
fn texture_format_takes_only_rgb8_and_rgba8() {
    let header = |channels, bits_per_pixel| ImageHeader { width: 1, height: 1, channels, bits_per_pixel };
    assert_eq!(texture_format(&header(3, 24)), Some(TextureFormat::Rgb8));
    assert_eq!(texture_format(&header(4, 32)), Some(TextureFormat::Rgba8));
    assert_eq!(texture_format(&header(1, 8)), None);
    assert_eq!(texture_format(&header(2, 16)), None);
    assert_eq!(texture_format(&header(1, 16)), None);
    assert_eq!(texture_format(&header(2, 32)), None);
    assert_eq!(texture_format(&header(3, 48)), None);
    assert_eq!(texture_format(&header(4, 64)), None);
    assert_eq!(texture_format(&header(3, 96)), None);
    assert_eq!(texture_format(&header(4, 128)), None);
    assert_eq!(TextureFormat::Rgb8.bytes_per_pixel(), 3);
    assert_eq!(TextureFormat::Rgba8.bytes_per_pixel(), 4);
}

#[test]
fn decoded_image_keeps_pixels_and_gets_fixed_sampling() {
    let decoded = DecodedImage {
        header: ImageHeader { width: 2, height: 1, channels: 3, bits_per_pixel: 24 },
        pixels: vec![1, 2, 3, 4, 5, 6],
    };
    let image = Texture::from_decoded(decoded).unwrap();
    assert_eq!(image.width(), 2);
    assert_eq!(image.height(), 1);
    assert_eq!(image.format(), TextureFormat::Rgb8);
    assert_eq!(image.pixels(), &vec![1, 2, 3, 4, 5, 6]);
    assert_eq!(
        image.sampling(),
        Sampling {
            wrap_s: Wrap::Repeat,
            wrap_t: Wrap::Repeat,
            min_filter: Filter::Linear,
            mag_filter: Filter::Linear,
        }
    );
}

#[test]
fn pixel_data_must_match_the_dimensions() {
    let short = DecodedImage {
        header: ImageHeader { width: 2, height: 2, channels: 4, bits_per_pixel: 32 },
        pixels: vec![0; 15],
    };
    assert!(matches!(Texture::from_decoded(short), Err(TextureError::Decode(_))));
    let long = DecodedImage {
        header: ImageHeader { width: 2, height: 2, channels: 4, bits_per_pixel: 32 },
        pixels: vec![0; 17],
    };
    assert!(matches!(Texture::from_decoded(long), Err(TextureError::Decode(_))));
    let huge = DecodedImage {
        header: ImageHeader { width: u32::MAX, height: u32::MAX, channels: 4, bits_per_pixel: 32 },
        pixels: vec![0; 4],
    };
    assert!(matches!(Texture::from_decoded(huge), Err(TextureError::Decode(_))));
    let empty = DecodedImage {
        header: ImageHeader { width: 0, height: 9, channels: 3, bits_per_pixel: 24 },
        pixels: Vec::new(),
    };
    assert!(Texture::from_decoded(empty).is_ok());
}

#[test]
fn unsupported_format_is_reported_before_pixel_data_is_looked_at() {
    let decoded = DecodedImage {
        header: ImageHeader { width: 2, height: 2, channels: 2, bits_per_pixel: 16 },
        pixels: Vec::new(),
    };
    assert_eq!(
        Texture::from_decoded(decoded).unwrap_err(),
        TextureError::UnsupportedFormat { channels: 2, bits_per_pixel: 16 }
    );
}

#[test]
fn bind_names_the_unit_and_the_texture() {
    let decoded = DecodedImage {
        header: ImageHeader { width: 1, height: 1, channels: 4, bits_per_pixel: 32 },
        pixels: vec![9, 9, 9, 9],
    };
    let texture = Texture::new(&Texture::from_decoded(decoded).unwrap(), 17);
    assert_eq!(texture.bind(0), GpuCommand::BindTexture { unit: 0, texture: 17 });
    assert_eq!(texture.bind(1), GpuCommand::BindTexture { unit: 1, texture: 17 });
}
