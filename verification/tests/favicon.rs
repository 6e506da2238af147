use std::io::Cursor;

use favilib::favicon::fits_scaling;
use favilib::{Favicon, FavilibError, ImageFormat, ImageSize, SiteUrl};
use image::{DynamicImage, GrayImage, Luma, Rgb, RgbImage, Rgba, RgbaImage};

fn url() -> SiteUrl {
    SiteUrl::parse("https://example.com/favicon.png").unwrap()
}

fn encoded(image: &DynamicImage, format: image::ImageFormat) -> Vec<u8> {
    let mut buffer = Cursor::new(Vec::new());
    image.write_to(&mut buffer, format).unwrap();
    buffer.into_inner()
}

fn opaque_image(width: u32, height: u32) -> DynamicImage {
    let mut pixels = RgbImage::new(width, height);
    for (x, y, pixel) in pixels.enumerate_pixels_mut() {
        *pixel = Rgb([(x * 7 % 256) as u8, (y * 13 % 256) as u8, ((x + y) % 256) as u8]);
    }
    DynamicImage::ImageRgb8(pixels)
}

fn translucent_image(width: u32, height: u32) -> DynamicImage {
    DynamicImage::ImageRgba8(RgbaImage::from_pixel(width, height, Rgba([10, 20, 30, 128])))
}

fn png_favicon(width: u32, height: u32) -> Favicon {
    Favicon::build(url(), encoded(&opaque_image(width, height), image::ImageFormat::Png)).unwrap()
}

#[test]
fn build_keeps_url_and_bytes_and_decodes_the_image() {
    let source = opaque_image(5, 3);
    let bytes = encoded(&source, image::ImageFormat::Png);
    let favicon = Favicon::build(url(), bytes.clone()).unwrap();
    assert_eq!(favicon.url(), &url());
    assert_eq!(favicon.bytes(), bytes.as_slice());
    assert_eq!(favicon.image(), &source);
    assert_eq!(favicon.width(), 5);
    assert_eq!(favicon.height(), 3);
}

#[test]
fn build_guesses_the_format_from_the_bytes() {
    let source = translucent_image(4, 4);
    for format in [
        image::ImageFormat::Png,
        image::ImageFormat::Bmp,
        image::ImageFormat::Ico,
        image::ImageFormat::WebP,
        image::ImageFormat::Gif,
    ] {
        let favicon = Favicon::build(url(), encoded(&source, format)).unwrap();
        assert_eq!(favicon.width(), 4);
        assert_eq!(favicon.height(), 4);
    }
    let photo = Favicon::build(url(), encoded(&opaque_image(4, 4), image::ImageFormat::Jpeg));
    assert_eq!(photo.unwrap().width(), 4);
}

#[test]
fn build_refuses_what_is_no_image() {
    let refused = Favicon::build(url(), b"<html>not an image</html>".to_vec());
    assert!(matches!(refused, Err(FavilibError::ImageDecodeError)));
    let empty = Favicon::build(url(), Vec::new());
    assert!(matches!(empty, Err(FavilibError::ImageDecodeError)));
}

#[test]
fn build_refuses_a_truncated_image() {
    let mut bytes = encoded(&opaque_image(8, 8), image::ImageFormat::Png);
    bytes.truncate(bytes.len() / 2);
    assert!(matches!(Favicon::build(url(), bytes), Err(FavilibError::ImageDecodeError)));
}

#[test]
fn clone_copies_everything() {
    let favicon = png_favicon(3, 2);
    let copy = favicon.clone();
    assert_eq!(copy.url(), favicon.url());
    assert_eq!(copy.bytes(), favicon.bytes());
    assert_eq!(copy.image(), favicon.image());
}

#[test]
fn resize_to_custom_gives_exactly_those_dimensions() {
    let resized = png_favicon(40, 25).resize(ImageSize::Custom(16, 16)).unwrap();
    assert_eq!(resized.width(), 16);
    assert_eq!(resized.height(), 16);
    assert_eq!(resized.image().width(), 16);
    assert_eq!(resized.image().height(), 16);
    assert_eq!(resized.url(), &url());
}

#[test]
fn resize_forces_the_dimensions_whatever_the_proportions() {
    for (width, height) in [(1, 1), (7, 3), (3, 7), (100, 1), (1, 100), (33, 65)] {
        let resized = png_favicon(9, 4).resize(ImageSize::Custom(width, height)).unwrap();
        assert_eq!((resized.width(), resized.height()), (width, height));
    }
    let enlarged = png_favicon(1, 1).resize(ImageSize::Large).unwrap();
    assert_eq!((enlarged.width(), enlarged.height()), (64, 64));
}

#[test]
fn resize_to_the_named_sizes() {
    let small = png_favicon(50, 50).resize(ImageSize::Small).unwrap();
    assert_eq!((small.width(), small.height()), (16, 16));
    let medium = png_favicon(50, 50).resize(ImageSize::Medium).unwrap();
    assert_eq!((medium.width(), medium.height()), (32, 32));
    let large = png_favicon(50, 50).resize(ImageSize::Large).unwrap();
    assert_eq!((large.width(), large.height()), (64, 64));
}

#[test]
fn resized_bytes_are_the_samples_of_the_image() {
    let resized = png_favicon(10, 10).resize(ImageSize::Custom(4, 2)).unwrap();
    assert_eq!(resized.bytes(), resized.image().as_bytes());
    assert_eq!(resized.bytes().len(), 4 * 2 * 3);
}

#[test]
fn resize_to_zero_is_an_invalid_size() {
    assert!(matches!(
        png_favicon(4, 4).resize(ImageSize::Custom(0, 10)),
        Err(FavilibError::InvalidSize)
    ));
    assert!(matches!(
        png_favicon(4, 4).resize(ImageSize::Custom(10, 0)),
        Err(FavilibError::InvalidSize)
    ));
    assert!(matches!(
        png_favicon(4, 4).resize(ImageSize::Custom(0, 0)),
        Err(FavilibError::InvalidSize)
    ));
}

#[test]
fn resize_to_invalid_is_refused() {
    assert!(matches!(
        png_favicon(4, 4).resize(ImageSize::Invalid),
        Err(FavilibError::InvalidSize)
    ));
    assert!(matches!(
        png_favicon(4, 4).resize(ImageSize::from("huge")),
        Err(FavilibError::InvalidSize)
    ));
}

#[test]
fn default_size_leaves_the_favicon_as_it_is() {
    let favicon = png_favicon(6, 5);
    let bytes = favicon.bytes().to_vec();
    let image = favicon.image().clone();
    let same = favicon.resize(ImageSize::Default).unwrap();
    assert_eq!(same.bytes(), bytes.as_slice());
    assert_eq!(same.image(), &image);
    assert_eq!(same.url(), &url());
    assert_eq!((same.width(), same.height()), (6, 5));
}

#[test]
fn can_resize_tells_what_resize_accepts() {
    let favicon = png_favicon(10, 10);
    assert!(favicon.can_resize(ImageSize::Default));
    assert!(favicon.can_resize(ImageSize::Invalid));
    assert!(favicon.can_resize(ImageSize::Small));
    assert!(favicon.can_resize(ImageSize::Custom(0, 10)));
    assert!(favicon.can_resize(ImageSize::Custom(4000, 3000)));
    assert!(favicon.can_resize(ImageSize::Custom(u32::MAX - 1, u32::MAX - 1)));
    assert!(!favicon.can_resize(ImageSize::Custom(u32::MAX, u32::MAX)));
    let flat = png_favicon(100, 1);
    assert!(flat.can_resize(ImageSize::Custom(1, 42949672)));
    assert!(!flat.can_resize(ImageSize::Custom(1, 42949673)));
}

#[test]
fn fits_scaling_bounds_the_scaled_dimensions() {
    assert!(fits_scaling(1, 1, 1, 1));
    assert!(fits_scaling(16, 16, 64, 64));
    assert!(fits_scaling(1, 1, 4294967294, 4294967294));
    assert!(!fits_scaling(1, 1, 4294967295, 4294967295));
    assert!(fits_scaling(2, 1, 4294967295, 1));
    assert!(!fits_scaling(1, 2, 4294967295, 1));
    assert!(fits_scaling(1, 65535, 65535, 1));
    assert!(!fits_scaling(1, 100000, 100000, 1));
    assert!(!fits_scaling(0, 5, 5, 5));
    assert!(!fits_scaling(5, 0, 5, 5));
    assert!(!fits_scaling(5, 5, 0, 5));
    assert!(!fits_scaling(5, 5, 5, 0));
}

#[test]
fn reformat_writes_the_image_in_the_format() {
    let opaque = png_favicon(12, 9);
    let translucent =
        Favicon::build(url(), encoded(&translucent_image(12, 9), image::ImageFormat::Png)).unwrap();
    for (favicon, format, expected) in [
        (&opaque, ImageFormat::Png, image::ImageFormat::Png),
        (&opaque, ImageFormat::Jpeg, image::ImageFormat::Jpeg),
        (&opaque, ImageFormat::WebP, image::ImageFormat::WebP),
        (&translucent, ImageFormat::Png, image::ImageFormat::Png),
        (&translucent, ImageFormat::WebP, image::ImageFormat::WebP),
        (&translucent, ImageFormat::Ico, image::ImageFormat::Ico),
    ] {
        let bytes = favicon.reformat(format).unwrap();
        assert_eq!(image::guess_format(&bytes).unwrap(), expected);
        let read_back = image::load_from_memory(&bytes).unwrap();
        assert_eq!((read_back.width(), read_back.height()), (12, 9));
    }
}

#[test]
fn reformat_to_png_keeps_every_pixel() {
    let source = translucent_image(3, 3);
    let favicon = Favicon::build(url(), encoded(&source, image::ImageFormat::Png)).unwrap();
    let bytes = favicon.reformat(ImageFormat::Png).unwrap();
    assert_eq!(image::load_from_memory(&bytes).unwrap(), source);
}

#[test]
fn reformat_refuses_a_format_that_cannot_hold_the_pixels() {
    let translucent =
        Favicon::build(url(), encoded(&translucent_image(3, 3), image::ImageFormat::Png)).unwrap();
    assert_eq!(translucent.reformat(ImageFormat::Jpeg), Err(FavilibError::EncodeError));
    let large = png_favicon(300, 2);
    assert_eq!(large.reformat(ImageFormat::Ico), Err(FavilibError::EncodeError));
}

#[test]
fn change_format_reads_back_what_was_written() {
    let favicon =
        Favicon::build(url(), encoded(&translucent_image(6, 4), image::ImageFormat::Png)).unwrap();
    let changed = favicon.change_format(ImageFormat::Ico).unwrap();
    assert_eq!(changed.url(), favicon.url());
    assert_eq!((changed.width(), changed.height()), (6, 4));
    assert_eq!(changed.bytes(), changed.image().as_bytes());
    let expected = image::load_from_memory(&favicon.reformat(ImageFormat::Ico).unwrap()).unwrap();
    assert_eq!(changed.image(), &expected);
}

#[test]
fn change_format_refuses_a_format_that_cannot_hold_the_pixels() {
    let translucent =
        Favicon::build(url(), encoded(&translucent_image(2, 2), image::ImageFormat::Png)).unwrap();
    assert!(matches!(
        translucent.change_format(ImageFormat::Jpeg),
        Err(FavilibError::EncodeError)
    ));
}

#[test]
fn change_format_to_jpeg_changes_the_pixels_but_not_the_size() {
    let favicon = png_favicon(16, 8);
    let changed = favicon.change_format(ImageFormat::Jpeg).unwrap();
    assert_eq!((changed.width(), changed.height()), (16, 8));
    assert_eq!(changed.bytes().len(), 16 * 8 * 3);
    assert_eq!(changed.bytes(), changed.image().as_bytes());
}

#[test]
fn change_format_fails_where_what_was_written_does_not_decode() {
    let opaque = png_favicon(6, 4);
    assert!(opaque.reformat(ImageFormat::Ico).is_ok());
    assert!(matches!(
        opaque.change_format(ImageFormat::Ico),
        Err(FavilibError::ImageDecodeError)
    ));
}

#[test]
fn grey_image_is_kept_grey() {
    let source = DynamicImage::ImageLuma8(GrayImage::from_pixel(4, 4, Luma([77])));
    let favicon = Favicon::build(url(), encoded(&source, image::ImageFormat::Png)).unwrap();
    assert_eq!(favicon.image(), &source);
    let resized = favicon.resize(ImageSize::Custom(2, 2)).unwrap();
    assert_eq!(resized.bytes(), &[77u8, 77, 77, 77][..]);
}

#[test]
fn error_messages() {
    assert_eq!(FavilibError::InvalidUrl.message(), "Failed to parse URL");
    assert_eq!(FavilibError::FetchError.message(), "Failed to fetch favicon");
    assert_eq!(FavilibError::NoHeaderSection.message(), "No header section found");
    assert_eq!(FavilibError::NoFaviconFound.message(), "No favicon found on website");
    assert_eq!(FavilibError::ImageDecodeError.message(), "Failed to decode favicon");
    assert_eq!(FavilibError::InvalidSize.message(), "Failed to parse size");
    assert_eq!(FavilibError::EncodeError.message(), "Failed to encode favicon");
}

#[test]
fn try_resize_resizes_where_it_can() {
    let resized = png_favicon(10, 10).try_resize(ImageSize::Custom(3, 5)).unwrap().unwrap();
    assert_eq!((resized.width(), resized.height()), (3, 5));
    let refused = png_favicon(10, 10).try_resize(ImageSize::Custom(0, 5)).unwrap();
    assert!(matches!(refused, Err(FavilibError::InvalidSize)));
    let kept = png_favicon(10, 10).try_resize(ImageSize::Default).unwrap().unwrap();
    assert_eq!((kept.width(), kept.height()), (10, 10));
}

#[test]
fn try_resize_hands_back_what_cannot_be_scaled() {
    let flat = png_favicon(100, 1);
    let bytes = flat.bytes().to_vec();
    let unchanged = flat.try_resize(ImageSize::Custom(1, 42949673)).unwrap_err();
    assert_eq!(unchanged.bytes(), bytes.as_slice());
    assert_eq!((unchanged.width(), unchanged.height()), (100, 1));
}
