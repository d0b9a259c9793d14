//! Rasters: decoded images, their resizing and their encoding.
//!
//! The pixels of a raster stay inside the `image` crate's own value; the
//! library reads the width and the height and hands the pixels on to the
//! resampler and the encoders.

use vstd::prelude::*;
use crate::error::ServiceError;

verus! {

/// The longest side of a rendition of the preview tier.
pub const PREVIEW_EDGE: u32 = 256;

/// The longest side of a rendition of the normal tier.
pub const NORMAL_EDGE: u32 = 1024;

/// The quality at which the widely supported lossy format is written.
pub const JPEG_QUALITY: u8 = 80;

/// The quality at which the modern lossy format is written.
pub const WEBP_QUALITY: u8 = 65;

/// The widest raster that is handed to the encoder of the modern lossy
/// format: beyond it the length of a row of four-byte pixels no longer fits
/// the encoder's signed 32-bit stride.
pub const WEBP_WIDTH_LIMIT: u32 = 0x1fff_ffff;

#[verifier::external_type_specification]
#[verifier::external_body]
pub struct ExDynamicImage(image::DynamicImage);

#[verifier::external_type_specification]
#[verifier::external_body]
pub struct ExImageError(image::ImageError);

/// A decoded image.
pub struct RasterImage {
    width: u32,
    height: u32,
    pixels: image::DynamicImage,
}

/// The image that the `image` crate reads from the bytes, after guessing the
/// format from the content; `None` where it reads none.
pub uninterp spec fn decoded_raster(bytes: Seq<u8>) -> Option<RasterImage>;

/// What `image::DynamicImage::resize` with the `Lanczos3` filter makes of a
/// raster for the bounds `nwidth` and `nheight`.
pub uninterp spec fn resampled(raster: RasterImage, nwidth: u32, nheight: u32) -> RasterImage;

/// The width and height that the `image` crate computes, in its
/// `resize_dimensions`, for the resizing of an image of `width` by `height`
/// pixels to the bounds `nwidth` and `nheight`.
pub uninterp spec fn scaled_size(width: u32, height: u32, nwidth: u32, nheight: u32) -> (u32, u32);

/// What `image::DynamicImage::write_to` writes for the raster as PNG; `None`
/// where it fails.
pub uninterp spec fn png_encoding(raster: RasterImage) -> Option<Seq<u8>>;

/// What `image::DynamicImage::write_to` writes for the raster as JPEG of the
/// given quality; `None` where it fails.
pub uninterp spec fn jpeg_encoding(raster: RasterImage, quality: u8) -> Option<Seq<u8>>;

/// What `webp::Encoder` makes of the raster at the given quality, lossy;
/// `None` where it takes no image of this pixel layout or fails.
pub uninterp spec fn webp_encoding(raster: RasterImage, quality: u8) -> Option<Seq<u8>>;

/// Whether a raster of `width` by `height` pixels lies inside the box.
pub open spec fn fits_within(width: u32, height: u32, max_width: u32, max_height: u32) -> bool {
    width <= max_width && height <= max_height
}

/// Whether `scaled_width` by `scaled_height` is a scaling of `width` by
/// `height` into the box that keeps the aspect ratio: both sides lie inside
/// the box, one side fills it, and the other side is within one pixel of its
/// exact proportional length.
pub open spec fn scaled_into(
    width: int,
    height: int,
    max_width: int,
    max_height: int,
    scaled_width: int,
    scaled_height: int,
) -> bool {
    &&& 1 <= scaled_width <= max_width
    &&& 1 <= scaled_height <= max_height
    &&& {
        ||| (scaled_width == max_width && -width <= scaled_height * width - height * max_width
            <= width)
        ||| (scaled_height == max_height && -height <= scaled_width * height - width * max_height
            <= height)
    }
}

/// Whether `scaled_width` by `scaled_height` has the aspect ratio of `width`
/// by `height`, up to one pixel of rounding on one side.
pub open spec fn aspect_kept(width: int, height: int, scaled_width: int, scaled_height: int) -> bool {
    ||| -width <= scaled_height * width - height * scaled_width <= width
    ||| -height <= scaled_width * height - width * scaled_height <= height
}

/// The size that fitting gives: the size itself where it lies inside the
/// box, else what the resampler makes of it.
pub open spec fn fitted_size(width: u32, height: u32, max_width: u32, max_height: u32) -> (
    u32,
    u32,
) {
    if fits_within(width, height, max_width, max_height) {
        (width, height)
    } else {
        scaled_size(width, height, max_width, max_height)
    }
}

/// The raster that the bytes decode to: what the decoder reads, where that
/// is an image of at least one pixel.
pub open spec fn raster_of(bytes: Seq<u8>) -> Option<RasterImage> {
    usable(decoded_raster(bytes))
}

/// The raster fitted into the box: the raster itself where it lies inside,
/// else what the resampler makes of it.
pub open spec fn fitted(raster: RasterImage, max_width: u32, max_height: u32) -> RasterImage {
    if fits_within(raster.width(), raster.height(), max_width, max_height) {
        raster
    } else {
        resampled(raster, max_width, max_height)
    }
}

/// The lossless encoding of the raster; `None` where the encoder fails.
pub open spec fn png_of(raster: RasterImage) -> Option<Seq<u8>> {
    png_encoding(raster)
}

/// The widely supported lossy encoding of the raster, at `JPEG_QUALITY`;
/// `None` where the encoder fails.
pub open spec fn jpeg_of(raster: RasterImage) -> Option<Seq<u8>> {
    jpeg_encoding(raster, JPEG_QUALITY)
}

/// The modern lossy encoding of the raster, at `WEBP_QUALITY`; `None` where
/// the raster is wider than `WEBP_WIDTH_LIMIT` or the encoder fails.
pub open spec fn webp_of(raster: RasterImage) -> Option<Seq<u8>> {
    if raster.width() > WEBP_WIDTH_LIMIT {
        None
    } else {
        webp_encoding(raster, WEBP_QUALITY)
    }
}

/// `image::io::Reader`: `new` over a cursor on the bytes, then
/// `with_guessed_format`, then `decode`. The outcome depends on the bytes
/// alone; the contract names what was read and says no more of it. The width
/// and the height beside the pixels are those that the image itself gives.
#[verifier::external_body]
fn image_decode(bytes: &[u8]) -> (r: Result<RasterImage, image::ImageError>)
    ensures
        r.is_ok() == decoded_raster(bytes@).is_some(),
        r matches Ok(raster) ==> decoded_raster(bytes@) == Some(raster),
{
    let reader = image::io::Reader::new(std::io::Cursor::new(bytes)).with_guessed_format()?;
    let pixels = reader.decode()?;
    Ok(RasterImage { width: pixels.width(), height: pixels.height(), pixels })
}

/// `image::DynamicImage::resize` with the `Lanczos3` filter, on a raster
/// that does not lie inside the bounds. The outcome depends on the raster
/// and the bounds alone and is named; its size depends on the old size and
/// the bounds alone and is named too. The crate computes it in floating
/// point: both sides are scaled by the smaller of the two ratios of bound to
/// side, each is rounded to the nearest whole pixel, and neither is let fall
/// below one. The contract claims what follows from that and what the crate
/// documents: the new size lies inside the bounds, one side fills its bound,
/// and the other is within one pixel of its exact proportional length.
#[verifier::external_body]
fn image_resize_lanczos3(raster: &RasterImage, nwidth: u32, nheight: u32) -> (out: RasterImage)
    requires
        raster.width >= 1,
        raster.height >= 1,
        nwidth >= 1,
        nheight >= 1,
        !fits_within(raster.width, raster.height, nwidth, nheight),
    ensures
        out == resampled(*raster, nwidth, nheight),
        (out.width, out.height) == scaled_size(raster.width, raster.height, nwidth, nheight),
        scaled_into(
            raster.width as int,
            raster.height as int,
            nwidth as int,
            nheight as int,
            out.width as int,
            out.height as int,
        ),
{
    let pixels = raster.pixels.resize(nwidth, nheight, image::imageops::FilterType::Lanczos3);
    RasterImage { width: pixels.width(), height: pixels.height(), pixels }
}

/// `image::DynamicImage`'s `clone`: a copy that equals the image.
#[verifier::external_body]
fn image_clone(pixels: &image::DynamicImage) -> (out: image::DynamicImage)
    ensures
        out == *pixels,
{
    pixels.clone()
}

/// `image::DynamicImage::write_to` with `ImageOutputFormat::Png`, into a
/// vector. The outcome depends on the raster alone and is named. On success
/// the vector holds a PNG stream, which is never empty.
#[verifier::external_body]
fn image_write_png(raster: &RasterImage) -> (r: Result<Vec<u8>, image::ImageError>)
    ensures
        r.is_ok() == png_encoding(*raster).is_some(),
        r matches Ok(bytes) ==> png_encoding(*raster) == Some(bytes@) && bytes@.len() > 0,
{
    let mut bytes = Vec::new();
    raster.pixels.write_to(&mut std::io::Cursor::new(&mut bytes), image::ImageOutputFormat::Png)?;
    Ok(bytes)
}

/// `image::DynamicImage::write_to` with `ImageOutputFormat::Jpeg` of the
/// given quality, into a vector. The outcome depends on the raster and the
/// quality alone and is named. On success the vector holds a JPEG stream,
/// which is never empty.
#[verifier::external_body]
fn image_write_jpeg(raster: &RasterImage, quality: u8) -> (r: Result<Vec<u8>, image::ImageError>)
    ensures
        r.is_ok() == jpeg_encoding(*raster, quality).is_some(),
        r matches Ok(bytes) ==> jpeg_encoding(*raster, quality) == Some(bytes@) && bytes@.len() > 0,
{
    let mut bytes = Vec::new();
    let format = image::ImageOutputFormat::Jpeg(quality);
    raster.pixels.write_to(&mut std::io::Cursor::new(&mut bytes), format)?;
    Ok(bytes)
}

/// `webp::Encoder::from_image`, then `encode_simple` without the lossless
/// mode and with the given quality. `None` where the encoder takes no image
/// of this pixel layout or the encoding fails; else the bytes of a WebP
/// stream, which is never empty. The outcome depends on the raster and the
/// quality alone and is named.
#[verifier::external_body]
fn webp_encode(raster: &RasterImage, quality: u8) -> (r: Option<Vec<u8>>)
    requires
        raster.width <= WEBP_WIDTH_LIMIT,
        quality <= 100,
    ensures
        r.is_some() == webp_encoding(*raster, quality).is_some(),
        r matches Some(bytes) ==> webp_encoding(*raster, quality) == Some(bytes@) && bytes@.len()
            > 0,
{
    match webp::Encoder::from_image(&raster.pixels) {
        Ok(encoder) => match encoder.encode_simple(false, quality.into()) {
            Ok(memory) => Some(memory.to_vec()),
            Err(_) => None,
        },
        Err(_) => None,
    }
}

impl RasterImage {
    /// The width in pixels.
    pub closed spec fn spec_width(&self) -> u32 {
        self.width
    }

    /// The height in pixels.
    pub closed spec fn spec_height(&self) -> u32 {
        self.height
    }

    /// Whether the raster holds at least one pixel.
    pub open spec fn wf(&self) -> bool {
        self.width() >= 1 && self.height() >= 1
    }

    /// The width in pixels.
    #[verifier::when_used_as_spec(spec_width)]
    pub fn width(&self) -> (width: u32)
        ensures
            width == self.spec_width(),
    {
        self.width
    }

    /// The height in pixels.
    #[verifier::when_used_as_spec(spec_height)]
    pub fn height(&self) -> (height: u32)
        ensures
            height == self.spec_height(),
    {
        self.height
    }
}

impl Clone for RasterImage {
    fn clone(&self) -> (out: RasterImage)
        ensures
            out == *self,
    {
        RasterImage { width: self.width, height: self.height, pixels: image_clone(&self.pixels) }
    }
}

/// The raster that is worked on, of what the decoder read: the image, where
/// it read one and that holds at least one pixel.
pub open spec fn usable(read: Option<RasterImage>) -> Option<RasterImage> {
    match read {
        Some(raster) => if raster.wf() {
            Some(raster)
        } else {
            None
        },
        None => None,
    }
}

/// What the outcome of the decoder means to the library: the raster, where
/// the decoder read an image of at least one pixel, and the failure to
/// decode everywhere else.
pub fn decoded(read: Option<RasterImage>) -> (r: Result<RasterImage, ServiceError>)
    ensures
        r == (match usable(read) {
            Some(raster) => Ok::<RasterImage, ServiceError>(raster),
            None => Err::<RasterImage, ServiceError>(ServiceError::Decode),
        }),
{
    match read {
        Some(raster) => {
            if raster.width >= 1 && raster.height >= 1 {
                Ok(raster)
            } else {
                Err(ServiceError::Decode)
            }
        },
        None => Err(ServiceError::Decode),
    }
}

/// Decodes the bytes into a raster. The format is found from the content.
/// Bytes that the decoder cannot read, and bytes that hold an image without
/// a single pixel, are refused as undecodable.
pub fn decode(bytes: &[u8]) -> (r: Result<RasterImage, ServiceError>)
    ensures
        r.is_ok() == raster_of(bytes@).is_some(),
        r matches Ok(raster) ==> raster.wf() && raster_of(bytes@) == Some(raster),
        r matches Err(e) ==> e == ServiceError::Decode,
{
    decoded(image_decode(bytes).ok())
}

/// A scaling of a raster that does not lie inside the box never makes a side
/// longer.
pub proof fn lemma_scaled_never_larger(
    width: int,
    height: int,
    max_width: int,
    max_height: int,
    scaled_width: int,
    scaled_height: int,
)
    requires
        width >= 1,
        height >= 1,
        max_width >= 1,
        max_height >= 1,
        width > max_width || height > max_height,
        scaled_into(width, height, max_width, max_height, scaled_width, scaled_height),
    ensures
        scaled_width <= width,
        scaled_height <= height,
{
    lemma_side_never_larger(width, height, max_width, max_height, scaled_width, scaled_height);
    lemma_side_never_larger(height, width, max_height, max_width, scaled_height, scaled_width);
}

/// One half of `lemma_scaled_never_larger`: the case in which the first side
/// fills the box.
proof fn lemma_side_never_larger(a: int, b: int, max_a: int, max_b: int, scaled_a: int, scaled_b: int)
    by (nonlinear_arith)
    requires
        a >= 1,
        b >= 1,
        max_a >= 1,
        max_b >= 1,
        a > max_a || b > max_b,
        1 <= scaled_a <= max_a,
        1 <= scaled_b <= max_b,
    ensures
        (scaled_a == max_a && -a <= scaled_b * a - b * max_a <= a) ==> scaled_a <= a && scaled_b
            <= b,
{
    if scaled_a == max_a && -a <= scaled_b * a - b * max_a <= a {
        if max_a > a {
            // Then the other side sticks out of the box, and the scaled side
            // is shorter than it by a pixel at least.
            assert(scaled_b <= b - 1);
            assert(scaled_b * a <= (b - 1) * a);
            assert(b * max_a >= b * (a + 1));
            assert(false);
        }
        if scaled_b > b {
            assert(scaled_b * a >= (b + 1) * a);
            assert(b * max_a <= b * a);
            if max_a == a {
                assert(b > max_b);
                assert(false);
            } else {
                assert(b * max_a <= b * (a - 1));
                assert(false);
            }
        }
    }
}

/// Scalings of one raster into the box of the normal tier and into that of
/// the preview tier are ordered: no side of the preview is longer than the
/// same side of the normal rendition.
pub proof fn lemma_scalings_ordered(
    width: int,
    height: int,
    normal_width: int,
    normal_height: int,
    preview_width: int,
    preview_height: int,
)
    requires
        width >= 1,
        height >= 1,
        scaled_into(width, height, 1024, 1024, normal_width, normal_height),
        scaled_into(width, height, 256, 256, preview_width, preview_height),
    ensures
        preview_width <= normal_width,
        preview_height <= normal_height,
{
    lemma_side_ordered(width, height, normal_width, normal_height, preview_width, preview_height);
    lemma_side_ordered(height, width, normal_height, normal_width, preview_height, preview_width);
}

/// One half of `lemma_scalings_ordered`: the case in which the first side of
/// the normal rendition fills its box.
proof fn lemma_side_ordered(a: int, b: int, normal_a: int, normal_b: int, preview_a: int, preview_b: int)
    by (nonlinear_arith)
    requires
        a >= 1,
        b >= 1,
        1 <= normal_a <= 1024,
        1 <= normal_b <= 1024,
        1 <= preview_a <= 256,
        1 <= preview_b <= 256,
        (preview_a == 256 && -a <= preview_b * a - b * 256 <= a) || (preview_b == 256 && -b
            <= preview_a * b - a * 256 <= b),
    ensures
        (normal_a == 1024 && -a <= normal_b * a - b * 1024 <= a) ==> preview_a <= normal_a
            && preview_b <= normal_b,
{
    if normal_a == 1024 && -a <= normal_b * a - b * 1024 <= a {
        if preview_b > normal_b {
            if preview_a == 256 && -a <= preview_b * a - b * 256 <= a {
                assert(preview_b * a >= (normal_b + 1) * a);
                assert(768 * b <= a);
                assert(preview_b * a < 2 * a);
                assert(preview_b < 2);
                assert(false);
            } else {
                assert(preview_b == 256);
                assert((preview_a + 1) * b >= 256 * a);
                assert(257 * b >= 256 * a);
                assert((normal_b + 1) * a >= 1024 * b);
                assert(257 * ((normal_b + 1) * a) >= 1024 * (256 * a));
                assert((257 * (normal_b + 1)) * a >= (1024 * 256) * a);
                assert(257 * (normal_b + 1) >= 1024 * 256);
                assert(false);
            }
        }
    }
}

/// Fits the raster into the box: a raster that lies inside the box is
/// returned as it is; any other is resampled, with the Lanczos filter of
/// three lobes, to the largest size of its aspect ratio that lies inside.
/// No side ever grows.
pub fn resize_to_fit(raster: &RasterImage, max_width: u32, max_height: u32) -> (out: RasterImage)
    requires
        raster.wf(),
        max_width >= 1,
        max_height >= 1,
    ensures
        out == fitted(*raster, max_width, max_height),
        out.wf(),
        (out.width(), out.height()) == fitted_size(
            raster.width(),
            raster.height(),
            max_width,
            max_height,
        ),
        !fits_within(raster.width(), raster.height(), max_width, max_height) ==> scaled_into(
            raster.width() as int,
            raster.height() as int,
            max_width as int,
            max_height as int,
            out.width() as int,
            out.height() as int,
        ),
        fits_within(out.width(), out.height(), max_width, max_height),
        out.width() <= raster.width(),
        out.height() <= raster.height(),
        aspect_kept(
            raster.width() as int,
            raster.height() as int,
            out.width() as int,
            out.height() as int,
        ),
{
    if raster.width <= max_width && raster.height <= max_height {
        raster.clone()
    } else {
        let out = image_resize_lanczos3(raster, max_width, max_height);
        proof {
            lemma_scaled_never_larger(
                raster.width as int,
                raster.height as int,
                max_width as int,
                max_height as int,
                out.width as int,
                out.height as int,
            );
        }
        out
    }
}

/// The three rasters from which the artifacts of an image are encoded.
pub struct ImageTiers {
    /// The decoded image, at its own size.
    pub full: RasterImage,
    /// The image fitted to the normal tier's box.
    pub normal: RasterImage,
    /// The image fitted to the preview tier's box.
    pub preview: RasterImage,
}

/// The tiers of a decoded image: the image itself, and its fittings into the
/// boxes of the normal and of the preview tier.
pub open spec fn tiers_of(full: RasterImage) -> ImageTiers {
    ImageTiers {
        full,
        normal: fitted(full, NORMAL_EDGE, NORMAL_EDGE),
        preview: fitted(full, PREVIEW_EDGE, PREVIEW_EDGE),
    }
}

impl ImageTiers {
    /// Whether every rendition holds a pixel, and the normal and the preview
    /// rendition have the sizes that fitting the full raster into the boxes
    /// of their tiers gives.
    pub open spec fn derived(&self) -> bool {
        &&& self.full.wf()
        &&& self.normal.wf()
        &&& self.preview.wf()
        &&& (self.normal.width(), self.normal.height()) == fitted_size(
            self.full.width(),
            self.full.height(),
            NORMAL_EDGE,
            NORMAL_EDGE,
        )
        &&& (self.preview.width(), self.preview.height()) == fitted_size(
            self.full.width(),
            self.full.height(),
            PREVIEW_EDGE,
            PREVIEW_EDGE,
        )
    }

    /// Whether the tiers shrink from full to normal to preview: no side of a
    /// smaller tier is longer than the same side of the tier above it.
    pub open spec fn ordered(&self) -> bool {
        &&& self.preview.width() <= self.normal.width() <= self.full.width()
        &&& self.preview.height() <= self.normal.height() <= self.full.height()
    }

    /// Whether the normal and the preview rendition lie inside the boxes of
    /// their tiers.
    pub open spec fn bounded(&self) -> bool {
        &&& fits_within(self.normal.width(), self.normal.height(), NORMAL_EDGE, NORMAL_EDGE)
        &&& fits_within(self.preview.width(), self.preview.height(), PREVIEW_EDGE, PREVIEW_EDGE)
    }

    /// Whether the normal and the preview rendition have the aspect ratio of
    /// the full raster, up to one pixel of rounding.
    pub open spec fn proportional(&self) -> bool {
        &&& aspect_kept(
            self.full.width() as int,
            self.full.height() as int,
            self.normal.width() as int,
            self.normal.height() as int,
        )
        &&& aspect_kept(
            self.full.width() as int,
            self.full.height() as int,
            self.preview.width() as int,
            self.preview.height() as int,
        )
    }

    /// Derives the tiers of a decoded image: the image itself, and its
    /// fittings into the boxes of the normal and of the preview tier, each
    /// made from the full raster.
    pub fn derive(full: RasterImage) -> (tiers: ImageTiers)
        requires
            full.wf(),
        ensures
            tiers == tiers_of(full),
            tiers.derived(),
            tiers.bounded(),
            tiers.ordered(),
            tiers.proportional(),
    {
        let preview = resize_to_fit(&full, PREVIEW_EDGE, PREVIEW_EDGE);
        let normal = resize_to_fit(&full, NORMAL_EDGE, NORMAL_EDGE);
        proof {
            if !fits_within(full.width(), full.height(), NORMAL_EDGE, NORMAL_EDGE) {
                lemma_scalings_ordered(
                    full.width() as int,
                    full.height() as int,
                    normal.width() as int,
                    normal.height() as int,
                    preview.width() as int,
                    preview.height() as int,
                );
            }
        }
        ImageTiers { full, normal, preview }
    }
}

/// What the outcome of an encoder means to the library: the bytes, or the
/// failure of an encoding.
pub fn encoded(outcome: Option<Vec<u8>>) -> (r: Result<Vec<u8>, ServiceError>)
    ensures
        r == (match outcome {
            Some(bytes) => Ok::<Vec<u8>, ServiceError>(bytes),
            None => Err::<Vec<u8>, ServiceError>(ServiceError::Encode),
        }),
{
    match outcome {
        Some(bytes) => Ok(bytes),
        None => Err(ServiceError::Encode),
    }
}

impl RasterImage {
    /// Encodes the raster in the lossless format, at the encoder's default
    /// compression.
    pub fn encode_png(&self) -> (r: Result<Vec<u8>, ServiceError>)
        ensures
            r.is_ok() == png_of(*self).is_some(),
            r matches Ok(bytes) ==> png_of(*self) == Some(bytes@) && bytes@.len() > 0,
            r matches Err(e) ==> e == ServiceError::Encode,
    {
        encoded(image_write_png(self).ok())
    }

    /// Encodes the raster in the widely supported lossy format, at quality
    /// `JPEG_QUALITY`.
    pub fn encode_jpeg(&self) -> (r: Result<Vec<u8>, ServiceError>)
        ensures
            r.is_ok() == jpeg_of(*self).is_some(),
            r matches Ok(bytes) ==> jpeg_of(*self) == Some(bytes@) && bytes@.len() > 0,
            r matches Err(e) ==> e == ServiceError::Encode,
    {
        encoded(image_write_jpeg(self, JPEG_QUALITY).ok())
    }

    /// Encodes the raster in the modern lossy format, at quality
    /// `WEBP_QUALITY`. A raster wider than `WEBP_WIDTH_LIMIT` is not handed
    /// to the encoder and fails.
    pub fn encode_webp(&self) -> (r: Result<Vec<u8>, ServiceError>)
        ensures
            r.is_ok() == webp_of(*self).is_some(),
            r matches Ok(bytes) ==> webp_of(*self) == Some(bytes@) && bytes@.len() > 0,
            r matches Err(e) ==> e == ServiceError::Encode,
    {
        if self.width > WEBP_WIDTH_LIMIT {
            encoded(None)
        } else {
            encoded(webp_encode(self, WEBP_QUALITY))
        }
    }
}

} // verus!
