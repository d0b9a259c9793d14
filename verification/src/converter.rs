//! The artifact set of one image: three resolution tiers, each encoded in
//! three formats, beside the bytes that were submitted.

use vstd::prelude::*;
use crate::error::ServiceError;
use crate::raster::ImageTiers;
use crate::raster::RasterImage;
use crate::raster::decode;
use crate::raster::jpeg_of;
use crate::raster::png_of;
use crate::raster::raster_of;
use crate::raster::tiers_of;
use crate::raster::webp_of;

verus! {

/// One raster, encoded in each of the three formats.
#[derive(Debug)]
pub struct ConvertedImages {
    /// The lossless encoding.
    pub png: Vec<u8>,
    /// The modern lossy encoding.
    pub webp: Vec<u8>,
    /// The widely supported lossy encoding.
    pub jpeg: Vec<u8>,
}

/// The three encodings of one raster, as sequences of bytes.
pub struct Encodings {
    pub png: Seq<u8>,
    pub webp: Seq<u8>,
    pub jpeg: Seq<u8>,
}

impl Encodings {
    /// Whether none of the three encodings is empty.
    pub open spec fn complete(self) -> bool {
        self.png.len() > 0 && self.webp.len() > 0 && self.jpeg.len() > 0
    }
}

impl View for ConvertedImages {
    type V = Encodings;

    open spec fn view(&self) -> Encodings {
        Encodings { png: self.png@, webp: self.webp@, jpeg: self.jpeg@ }
    }
}

impl ConvertedImages {
    /// Collects the three encodings of one raster.
    pub fn new(png: Vec<u8>, webp: Vec<u8>, jpeg: Vec<u8>) -> (images: ConvertedImages)
        ensures
            images.png == png,
            images.webp == webp,
            images.jpeg == jpeg,
    {
        ConvertedImages { png, webp, jpeg }
    }

    /// Whether none of the three encodings is empty.
    pub open spec fn complete(&self) -> bool {
        self@.complete()
    }
}

/// The artifacts of one image.
#[derive(Debug)]
pub struct ImagesVersions {
    /// The encodings at the source's own size.
    pub full: ConvertedImages,
    /// The encodings of the normal tier.
    pub normal: ConvertedImages,
    /// The encodings of the preview tier.
    pub preview: ConvertedImages,
    /// The submitted bytes, untouched.
    pub original: Vec<u8>,
}

/// The artifacts of one image, as sequences of bytes.
pub struct Artifacts {
    pub full: Encodings,
    pub normal: Encodings,
    pub preview: Encodings,
    pub original: Seq<u8>,
}

impl Artifacts {
    /// Whether every encoding of every tier holds at least one byte.
    pub open spec fn complete(self) -> bool {
        self.full.complete() && self.normal.complete() && self.preview.complete()
    }
}

impl View for ImagesVersions {
    type V = Artifacts;

    open spec fn view(&self) -> Artifacts {
        Artifacts {
            full: self.full@,
            normal: self.normal@,
            preview: self.preview@,
            original: self.original@,
        }
    }
}

impl ImagesVersions {
    /// Whether every encoding of every tier holds at least one byte.
    pub open spec fn complete(&self) -> bool {
        self@.complete()
    }
}

/// The three encodings of a raster: each is what its encoder makes of the
/// raster, the lossy ones at the qualities of their formats. There are none
/// where any of the three encoders fails.
pub open spec fn encodings_of(raster: RasterImage) -> Option<Encodings> {
    if png_of(raster) is Some && jpeg_of(raster) is Some && webp_of(raster) is Some {
        Some(
            Encodings {
                png: png_of(raster).unwrap(),
                webp: webp_of(raster).unwrap(),
                jpeg: jpeg_of(raster).unwrap(),
            },
        )
    } else {
        None
    }
}

/// The artifacts of the tiers beside the submitted bytes: the encodings of
/// each of the three rasters. There are none where any encoding fails.
pub open spec fn tier_artifacts(tiers: ImageTiers, original: Seq<u8>) -> Option<Artifacts> {
    if encodings_of(tiers.full) is Some && encodings_of(tiers.normal) is Some && encodings_of(
        tiers.preview,
    ) is Some {
        Some(
            Artifacts {
                full: encodings_of(tiers.full).unwrap(),
                normal: encodings_of(tiers.normal).unwrap(),
                preview: encodings_of(tiers.preview).unwrap(),
                original,
            },
        )
    } else {
        None
    }
}

/// What becomes of submitted bytes: the artifacts of the tiers of the raster
/// that they decode to; the failure to decode where they decode to none; the
/// failure to encode where they decode and an encoding fails.
pub open spec fn artifacts_of(bytes: Seq<u8>) -> Result<Artifacts, ServiceError> {
    match raster_of(bytes) {
        None => Err(ServiceError::Decode),
        Some(full) => match tier_artifacts(tiers_of(full), bytes) {
            Some(artifacts) => Ok(artifacts),
            None => Err(ServiceError::Encode),
        },
    }
}

/// Encodes one raster in the three formats: the lossless one, the widely
/// supported lossy one, the modern lossy one. The failure of any of them
/// fails the whole.
pub fn convert_image(raster: &RasterImage) -> (r: Result<ConvertedImages, ServiceError>)
    ensures
        r.is_ok() == encodings_of(*raster).is_some(),
        r matches Ok(images) ==> encodings_of(*raster) == Some(images@) && images.complete(),
        r matches Err(e) ==> e == ServiceError::Encode,
{
    let png = match raster.encode_png() {
        Ok(bytes) => bytes,
        Err(e) => {
            return Err(e);
        },
    };
    let jpeg = match raster.encode_jpeg() {
        Ok(bytes) => bytes,
        Err(e) => {
            return Err(e);
        },
    };
    let webp = match raster.encode_webp() {
        Ok(bytes) => bytes,
        Err(e) => {
            return Err(e);
        },
    };
    Ok(ConvertedImages::new(png, webp, jpeg))
}

/// Encodes the three tiers and joins them with the submitted bytes.
pub fn encode_tiers(tiers: &ImageTiers, original: Vec<u8>) -> (r: Result<
    ImagesVersions,
    ServiceError,
>)
    ensures
        r.is_ok() == tier_artifacts(*tiers, original@).is_some(),
        r matches Ok(images) ==> tier_artifacts(*tiers, original@) == Some(images@)
            && images.original == original && images.complete(),
        r matches Err(e) ==> e == ServiceError::Encode,
{
    let full = match convert_image(&tiers.full) {
        Ok(images) => images,
        Err(e) => {
            return Err(e);
        },
    };
    let normal = match convert_image(&tiers.normal) {
        Ok(images) => images,
        Err(e) => {
            return Err(e);
        },
    };
    let preview = match convert_image(&tiers.preview) {
        Ok(images) => images,
        Err(e) => {
            return Err(e);
        },
    };
    Ok(ImagesVersions { full, normal, preview, original })
}

/// Builds the artifacts of an image from the submitted bytes: decodes them
/// once, derives the normal and the preview tier from the decoded image,
/// encodes each tier in the three formats, and keeps the bytes themselves.
///
/// Bytes that do not decode fail with `Decode`, and only they; bytes that
/// decode fail with `Encode` where an encoder refuses one of the tiers, and
/// give the artifacts everywhere else.
pub fn convert_and_resize(original_bytes: Vec<u8>) -> (r: Result<ImagesVersions, ServiceError>)
    ensures
        r matches Ok(images) ==> artifacts_of(original_bytes@) == Ok::<Artifacts, ServiceError>(
            images@,
        ) && images.original == original_bytes && images.complete(),
        r matches Err(e) ==> artifacts_of(original_bytes@) == Err::<Artifacts, ServiceError>(e),
{
    let full = match decode(original_bytes.as_slice()) {
        Ok(raster) => raster,
        Err(e) => {
            return Err(e);
        },
    };
    let tiers = ImageTiers::derive(full);
    encode_tiers(&tiers, original_bytes)
}

} // verus!
