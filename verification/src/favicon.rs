//! The favicon asset: where it came from, its bytes, and the decoded image.
//!
//! Images are decoded, scaled and encoded by the `image` crate. A decoded
//! image is carried as the codec's own value; what it holds is named by
//! `raster_of` and `buffer_of`, what decoding and encoding give by
//! `decoded_raster` and `encoded_raster`. An asset exists only with an image
//! that its bytes agree with.

use vstd::prelude::*;

use crate::errors::FavilibError;
use crate::site_url::SiteUrl;
use crate::size::ImageSize;

verus! {

/// The decoded image of the `image` crate, carried as it is.
#[verifier::external_type_specification]
#[verifier::external_body]
pub struct ExDynamicImage(image::DynamicImage);

/// The error of the `image` crate, told apart from success and no further.
#[verifier::external_type_specification]
#[verifier::external_body]
pub struct ExImageError(image::ImageError);

/// The container formats that an image can be written in.
#[derive(Debug, Clone, Copy, PartialEq, Eq, Structural)]
pub enum ImageFormat {
    Png,
    Jpeg,
    WebP,
    Ico,
}

/// What a decoded image holds: its dimensions in pixels, the layout of a
/// pixel (how many channels, how many bytes), and the value of every sample,
/// row by row and pixel by pixel, a floating-point sample by its bits.
pub struct Raster {
    pub width: u32,
    pub height: u32,
    pub channels: u8,
    pub bytes_per_pixel: u8,
    pub samples: Seq<u32>,
}

/// What the decoded image `image` holds.
pub uninterp spec fn raster_of(image: image::DynamicImage) -> Raster;

/// The pixel buffer of the decoded image `image` as bytes: its samples in
/// their order, a sample of more than one byte in the byte order of the
/// machine.
pub uninterp spec fn buffer_of(image: image::DynamicImage) -> Seq<u8>;

/// What the image holds that `bytes` decode as, the format being guessed
/// from the bytes themselves; `None` where they do not decode as an image.
pub uninterp spec fn decoded_raster(bytes: Seq<u8>) -> Option<Raster>;

/// The bytes that an image with the given content is written as in the
/// given format, without any conversion of its pixels; `None` where the
/// format cannot hold it.
pub uninterp spec fn encoded_raster(raster: Raster, format: ImageFormat) -> Option<Seq<u8>>;

/// The largest dimension that scaling may pass through.
pub const SCALE_LIMIT: u64 = 0xFFFF_FFFE;

/// An image of `width` by `height` pixels can be scaled to fill `new_width`
/// by `new_height` pixels: no dimension is zero, and the image scaled up to
/// cover the new size, its proportions kept, still has dimensions of 32 bits.
pub open spec fn scaling_fits(width: u32, height: u32, new_width: u32, new_height: u32) -> bool {
    &&& width > 0
    &&& height > 0
    &&& new_width > 0
    &&& new_height > 0
    &&& height * new_width <= width * SCALE_LIMIT
    &&& width * new_height <= height * SCALE_LIMIT
}

/// Calls `image::guess_format` and `image::load_from_memory_with_format`: the
/// format is guessed from the first bytes and the bytes are decoded in it,
/// by the codecs that are built in and none that a program registers. The
/// contract only names the result: an image whose content is what
/// `decoded_raster` gives, or an error exactly where `decoded_raster` is
/// `None`.
#[verifier::external_body]
fn decode_image(bytes: &[u8]) -> (decoded: Result<image::DynamicImage, image::ImageError>)
    ensures
        match decoded {
            Ok(image) => decoded_raster(bytes@) == Some(raster_of(image)),
            Err(_) => decoded_raster(bytes@) is None,
        },
{
    image::load_from_memory_with_format(bytes, image::guess_format(bytes)?)
}

/// Calls `image::DynamicImage::clone`, which copies the buffer of the image:
/// the copy holds what the image holds.
#[verifier::external_body]
fn clone_image(image: &image::DynamicImage) -> (copy: image::DynamicImage)
    ensures
        raster_of(copy) == raster_of(*image),
        buffer_of(copy) == buffer_of(*image),
{
    image.clone()
}

/// Calls `image::GenericImageView::dimensions`: the width and height of the
/// image are those of its content.
#[verifier::external_body]
fn image_dimensions(image: &image::DynamicImage) -> (dimensions: (u32, u32))
    ensures
        dimensions.0 == raster_of(*image).width,
        dimensions.1 == raster_of(*image).height,
{
    image::GenericImageView::dimensions(image)
}

/// Calls `image::DynamicImage::as_bytes` and copies the slice: the bytes are
/// the pixel buffer of the image.
#[verifier::external_body]
fn image_samples(image: &image::DynamicImage) -> (samples: Vec<u8>)
    ensures
        samples@ == buffer_of(*image),
{
    image.as_bytes().to_vec()
}

/// Calls `image::DynamicImage::resize_to_fill` with the Lanczos filter of
/// window 3. The image is scaled, its proportions kept, until it covers
/// `width` by `height`, and is then cropped around its centre. Of the result
/// the contract states the dimensions. They are the ones asked for because
/// `scaling_fits` keeps the scaled dimensions within 32 bits, so that the
/// scaled image covers the new size and the crop takes all of it. As with
/// every allocation, memory is taken to suffice.
#[verifier::external_body]
fn resize_image(image: &image::DynamicImage, width: u32, height: u32) -> (resized:
    image::DynamicImage)
    requires
        scaling_fits(raster_of(*image).width, raster_of(*image).height, width, height),
    ensures
        raster_of(resized).width == width,
        raster_of(resized).height == height,
{
    image.resize_to_fill(width, height, image::imageops::FilterType::Lanczos3)
}

/// Calls `image::write_buffer_with_format` on the samples, dimensions and
/// colour type of the image, into a buffer in memory. The pixels are handed
/// over as they are, so a format that cannot hold them is an error. The
/// contract only names the result, as `encoded_raster`.
#[verifier::external_body]
fn encode_image(image: &image::DynamicImage, format: ImageFormat) -> (encoded: Result<
    Vec<u8>,
    image::ImageError,
>)
    ensures
        match encoded {
            Ok(bytes) => encoded_raster(raster_of(*image), format) == Some(bytes@),
            Err(_) => encoded_raster(raster_of(*image), format) is None,
        },
{
    let target = match format {
        ImageFormat::Png => image::ImageFormat::Png,
        ImageFormat::Jpeg => image::ImageFormat::Jpeg,
        ImageFormat::WebP => image::ImageFormat::WebP,
        ImageFormat::Ico => image::ImageFormat::Ico,
    };
    let mut buffer = std::io::Cursor::new(Vec::new());
    let (width, height) = (image.width(), image.height());
    let (samples, color) = (image.as_bytes(), image.color());
    image::write_buffer_with_format(&mut buffer, samples, width, height, color, target)?;
    Ok(buffer.into_inner())
}

/// A favicon: the URL it was fetched from, its bytes, and the image that was
/// decoded from them.
///
/// The bytes and the image always agree: either the bytes decode as the
/// image, or they are the pixel buffer of the image.
#[derive(Debug)]
pub struct Favicon {
    url: SiteUrl,
    bytes: Vec<u8>,
    image: image::DynamicImage,
}

/// A [`Favicon`] as a mathematical value.
pub struct FaviconView {
    pub url: Seq<char>,
    pub bytes: Seq<u8>,
    pub raster: Raster,
}

impl View for Favicon {
    type V = FaviconView;

    closed spec fn view(&self) -> FaviconView {
        FaviconView { url: self.url@, bytes: self.bytes@, raster: raster_of(self.image) }
    }
}

impl Clone for Favicon {
    fn clone(&self) -> (copy: Favicon)
        ensures
            copy@ == self@,
            copy.buffer() == self.buffer(),
    {
        proof {
            use_type_invariant(self);
        }
        let bytes = self.bytes.clone();
        assert(bytes@ =~= self.bytes@);
        Favicon { url: self.url.clone(), bytes, image: clone_image(&self.image) }
    }
}

impl Favicon {
    #[verifier::type_invariant]
    spec fn agrees(&self) -> bool {
        self.consistent()
    }

    /// The pixel buffer of the image of this favicon, as bytes.
    pub closed spec fn buffer(&self) -> Seq<u8> {
        buffer_of(self.image)
    }

    /// The bytes and the image agree: the bytes decode as the image, or they
    /// are its pixel buffer.
    pub open spec fn consistent(&self) -> bool {
        decoded_raster(self@.bytes) == Some(self@.raster) || self@.bytes == self.buffer()
    }

    /// Builds a favicon from the URL it came from and its bytes. Nothing is
    /// fetched. Fails with `ImageDecodeError` exactly where the bytes do not
    /// decode as an image.
    pub fn build(url: SiteUrl, bytes: Vec<u8>) -> (outcome: Result<Favicon, FavilibError>)
        ensures
            match decoded_raster(bytes@) {
                Some(raster) => outcome matches Ok(favicon) && favicon@ == (FaviconView {
                    url: url@,
                    bytes: bytes@,
                    raster,
                }),
                None => outcome == Err::<Favicon, FavilibError>(FavilibError::ImageDecodeError),
            },
    {
        match decode_image(bytes.as_slice()) {
            Ok(image) => Ok(Favicon { url, bytes, image }),
            Err(_) => Err(FavilibError::ImageDecodeError),
        }
    }

    /// The bytes of this favicon: those it was built from, or the pixel buffer
    /// of its image after it was resized or changed in format.
    pub fn bytes(&self) -> (bytes: &[u8])
        ensures
            bytes@ == self@.bytes,
            self.consistent(),
    {
        proof {
            use_type_invariant(self);
        }
        self.bytes.as_slice()
    }

    /// The decoded image.
    pub fn image(&self) -> (image: &image::DynamicImage)
        ensures
            raster_of(*image) == self@.raster,
            buffer_of(*image) == self.buffer(),
            self.consistent(),
    {
        proof {
            use_type_invariant(self);
        }
        &self.image
    }

    /// The exact URL of the favicon, its path included.
    pub fn url(&self) -> (url: &SiteUrl)
        ensures
            url@ == self@.url,
    {
        &self.url
    }

    /// The width of the image in pixels.
    pub fn width(&self) -> (width: u32)
        ensures
            width == self@.raster.width,
    {
        image_dimensions(&self.image).0
    }

    /// The height of the image in pixels.
    pub fn height(&self) -> (height: u32)
        ensures
            height == self@.raster.height,
    {
        image_dimensions(&self.image).1
    }
}

/// Tells whether an image of `width` by `height` pixels can be scaled to fill
/// `new_width` by `new_height` pixels.
pub fn fits_scaling(width: u32, height: u32, new_width: u32, new_height: u32) -> (fits: bool)
    ensures
        fits == scaling_fits(width, height, new_width, new_height),
{
    if width == 0 || height == 0 || new_width == 0 || new_height == 0 {
        return false;
    }
    assert(height * new_width <= 0xFFFF_FFFF * 0xFFFF_FFFF) by (nonlinear_arith)
        requires
            height <= 0xFFFF_FFFF,
            new_width <= 0xFFFF_FFFF,
    ;
    assert(width * new_height <= 0xFFFF_FFFF * 0xFFFF_FFFF) by (nonlinear_arith)
        requires
            width <= 0xFFFF_FFFF,
            new_height <= 0xFFFF_FFFF,
    ;
    assert(width * SCALE_LIMIT <= 0xFFFF_FFFF * 0xFFFF_FFFF) by (nonlinear_arith)
        requires
            width <= 0xFFFF_FFFF,
            SCALE_LIMIT <= 0xFFFF_FFFF,
    ;
    assert(height * SCALE_LIMIT <= 0xFFFF_FFFF * 0xFFFF_FFFF) by (nonlinear_arith)
        requires
            height <= 0xFFFF_FFFF,
            SCALE_LIMIT <= 0xFFFF_FFFF,
    ;
    let wide: u64 = width as u64;
    let high: u64 = height as u64;
    high * (new_width as u64) <= wide * SCALE_LIMIT && wide * (new_height as u64) <= high
        * SCALE_LIMIT
}

impl Favicon {
    /// This favicon can be resized to `size`: where the size asks for a
    /// width and a height that are not zero, its image can be scaled to fill
    /// them.
    pub open spec fn resizable_to(&self, size: ImageSize) -> bool {
        match size.spec_dimensions() {
            Some((width, height)) => width > 0 && height > 0 ==> scaling_fits(
                self@.raster.width,
                self@.raster.height,
                width,
                height,
            ),
            None => true,
        }
    }

    /// Tells whether this favicon can be resized to `size`.
    pub fn can_resize(&self, size: ImageSize) -> (fits: bool)
        ensures
            fits == self.resizable_to(size),
    {
        match size.dimensions() {
            Some((width, height)) => {
                if width > 0 && height > 0 {
                    let (own_width, own_height) = image_dimensions(&self.image);
                    fits_scaling(own_width, own_height, width, height)
                } else {
                    true
                }
            },
            None => true,
        }
    }

    /// `outcome` is what resizing this favicon to `size` gives.
    ///
    /// `Default` gives the favicon as it is. A width and a height that are
    /// not zero give a favicon with the same URL whose image has exactly that
    /// width and height and whose bytes are the pixel buffer of that image.
    /// A width or height of zero, and the size `Invalid`, give `InvalidSize`.
    pub open spec fn resized_as(
        &self,
        size: ImageSize,
        outcome: Result<Favicon, FavilibError>,
    ) -> bool {
        match size.spec_dimensions() {
            Some((width, height)) => if width == 0 || height == 0 {
                outcome == Err::<Favicon, FavilibError>(FavilibError::InvalidSize)
            } else {
                &&& outcome matches Ok(resized)
                &&& resized@.url == self@.url
                &&& resized@.raster.width == width
                &&& resized@.raster.height == height
                &&& resized@.bytes == resized.buffer()
            },
            None => if size is Default {
                outcome == Ok::<Favicon, FavilibError>(*self)
            } else {
                outcome == Err::<Favicon, FavilibError>(FavilibError::InvalidSize)
            },
        }
    }

    /// Resizes this favicon: the image is scaled, its proportions kept, until
    /// it covers the size, and cropped around its centre. `Default` hands the
    /// favicon back as it is; a width or height of zero, and the size
    /// `Invalid`, fail with `InvalidSize`.
    pub fn resize(self, size: ImageSize) -> (outcome: Result<Favicon, FavilibError>)
        requires
            self.resizable_to(size),
        ensures
            self.resized_as(size, outcome),
    {
        match size.dimensions() {
            Some((width, height)) => {
                if width == 0 || height == 0 {
                    return Err(FavilibError::InvalidSize);
                }
                let image = resize_image(&self.image, width, height);
                let bytes = image_samples(&image);
                Ok(Favicon { url: self.url, bytes, image })
            },
            None => match size {
                ImageSize::Default => Ok(self),
                _ => Err(FavilibError::InvalidSize),
            },
        }
    }

    /// Resizes this favicon where it can be resized to `size`, as [`resize`]
    /// does, and hands it back as it is where it cannot.
    ///
    /// [`resize`]: Favicon::resize
    pub fn try_resize(self, size: ImageSize) -> (outcome: Result<
        Result<Favicon, FavilibError>,
        Favicon,
    >)
        ensures
            match outcome {
                Ok(resized) => self.resizable_to(size) && self.resized_as(size, resized),
                Err(unchanged) => !self.resizable_to(size) && unchanged == self,
            },
    {
        if self.can_resize(size) {
            Ok(self.resize(size))
        } else {
            Err(self)
        }
    }

    /// Writes the image of this favicon in the given format, its pixels as
    /// they are. Fails with `EncodeError` exactly where the format cannot
    /// hold them.
    pub fn reformat(&self, format: ImageFormat) -> (outcome: Result<Vec<u8>, FavilibError>)
        ensures
            match encoded_raster(self@.raster, format) {
                Some(bytes) => outcome matches Ok(written) && written@ == bytes,
                None => outcome == Err::<Vec<u8>, FavilibError>(FavilibError::EncodeError),
            },
    {
        match encode_image(&self.image, format) {
            Ok(bytes) => Ok(bytes),
            Err(_) => Err(FavilibError::EncodeError),
        }
    }

    /// Gives this favicon in another format: its image is written in the
    /// format and read back. The result has the same URL, the image as read
    /// back, and the pixel buffer of that image as its bytes. Fails with
    /// `EncodeError` exactly where the format cannot hold the image, and with
    /// `ImageDecodeError` exactly where what was written does not decode.
    pub fn change_format(&self, format: ImageFormat) -> (outcome: Result<Favicon, FavilibError>)
        ensures
            match encoded_raster(self@.raster, format) {
                Some(bytes) => match decoded_raster(bytes) {
                    Some(raster) => {
                        &&& outcome matches Ok(changed)
                        &&& changed@.url == self@.url
                        &&& changed@.raster == raster
                        &&& changed@.bytes == changed.buffer()
                    },
                    None => outcome == Err::<Favicon, FavilibError>(
                        FavilibError::ImageDecodeError,
                    ),
                },
                None => outcome == Err::<Favicon, FavilibError>(FavilibError::EncodeError),
            },
    {
        let written = match encode_image(&self.image, format) {
            Ok(bytes) => bytes,
            Err(_) => {
                return Err(FavilibError::EncodeError);
            },
        };
        match decode_image(written.as_slice()) {
            Ok(image) => {
                let bytes = image_samples(&image);
                Ok(Favicon { url: self.url.clone(), bytes, image })
            },
            Err(_) => Err(FavilibError::ImageDecodeError),
        }
    }
}

} // verus!
