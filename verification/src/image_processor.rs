//! Derivative generation: from one source image to its ordered set of
//! resized, JPEG-encoded derivatives.
//!
//! The geometry is decided here; decoding, resampling and encoding are the
//! work of the `image` crate.

use crate::error::{ErrorView, GalleryError};
use crate::models::{derivatives_of, CompressedImage, Derivative};
use crate::tier::{
    derivative_plan, lemma_scaled_side_bounds, longest_side, plan_derivatives, plan_tier, planned,
    scaled_side, tier_limit, tier_name, DerivativePlan, Tier,
};
use vstd::prelude::*;
use vstd::string::StringExecFns;

verus! {

/// The decoded pixels of an image, as the `image` crate holds them.
#[verifier::external_type_specification]
#[verifier::external_body]
pub struct ExDynamicImage(image::DynamicImage);

/// The failure of a decoder or an encoder of the `image` crate.
#[verifier::external_type_specification]
#[verifier::external_body]
pub struct ExImageError(image::ImageError);

/// A format of encoded images that this library reads.
#[derive(Clone, Copy, Debug, PartialEq, Eq, Structural)]
pub enum SourceFormat {
    Png,
    Jpeg,
    Gif,
    WebP,
    Tiff,
    Bmp,
    Ico,
}

/// The format that `image::guess_format` recognises by the first bytes of an
/// encoded image, or `None` where it recognises none that this library
/// reads.
pub uninterp spec fn guessed_format(source: Seq<u8>) -> Option<SourceFormat>;

/// The width and height of the image that `image::load_from_memory_with_format`
/// decodes from the bytes of an image encoded in `format`, or `None` where
/// it fails to decode them.
pub uninterp spec fn decoded_as(source: Seq<u8>, format: SourceFormat) -> Option<(u32, u32)>;

/// The width and height of the image that encoded bytes decode to: the
/// format is recognised by the first bytes, and the bytes are decoded in
/// that format. `None` where the format is not recognised or the bytes do
/// not decode in it.
pub open spec fn decoded_size(source: Seq<u8>) -> Option<(u32, u32)> {
    match guessed_format(source) {
        Some(format) => decoded_as(source, format),
        None => None,
    }
}

/// The longest side that a JPEG image can have, in pixels.
pub const JPEG_MAX_SIDE: u32 = 65535;

/// Whether an image of these dimensions can be written as JPEG: it needs at
/// least one pixel, and neither side may exceed what the format can record.
pub open spec fn jpeg_can_hold(width: u32, height: u32) -> bool {
    1 <= width <= JPEG_MAX_SIDE && 1 <= height <= JPEG_MAX_SIDE
}

/// A decoded image: its pixels and their dimensions.
pub struct SourceImage {
    width: u32,
    height: u32,
    pixels: image::DynamicImage,
}

impl SourceImage {
    /// Width and height of the image, in pixels.
    pub closed spec fn size(&self) -> (u32, u32) {
        (self.width, self.height)
    }

    /// Width of the image, in pixels.
    pub fn width(&self) -> (width: u32)
        ensures
            width == self.size().0,
    {
        self.width
    }

    /// Height of the image, in pixels.
    pub fn height(&self) -> (height: u32)
        ensures
            height == self.size().1,
    {
        self.height
    }

    /// Decodes an encoded image; the format is recognised from the bytes.
    pub fn decode(source: &[u8]) -> (decoded: Result<SourceImage, GalleryError>)
        ensures
            match decoded {
                Ok(image) => decoded_size(source@) == Some(image.size()),
                Err(error) => error@ is Decode && decoded_size(source@) is None,
            },
    {
        match guess_format(source) {
            Some(format) => match load_from_memory_with_format(source, format) {
                Ok(image) => Ok(image),
                Err(_) => Err(GalleryError::Decode),
            },
            None => Err(GalleryError::Decode),
        }
    }
}

/// Calls `image::guess_format`, which compares the first bytes with the
/// signatures of the formats it knows.
///
/// Trusted: which format is recognised depends on the bytes alone. A format
/// that this library does not read counts as none.
#[verifier::external_body]
fn guess_format(source: &[u8]) -> (format: Option<SourceFormat>)
    ensures
        format == guessed_format(source@),
{
    match image::guess_format(source) {
        Ok(image::ImageFormat::Png) => Some(SourceFormat::Png),
        Ok(image::ImageFormat::Jpeg) => Some(SourceFormat::Jpeg),
        Ok(image::ImageFormat::Gif) => Some(SourceFormat::Gif),
        Ok(image::ImageFormat::WebP) => Some(SourceFormat::WebP),
        Ok(image::ImageFormat::Tiff) => Some(SourceFormat::Tiff),
        Ok(image::ImageFormat::Bmp) => Some(SourceFormat::Bmp),
        Ok(image::ImageFormat::Ico) => Some(SourceFormat::Ico),
        _ => None,
    }
}

/// Calls `image::load_from_memory_with_format`, which decodes the bytes in
/// the given format, and reads the dimensions of what it decoded.
///
/// Trusted: whether the bytes decode in that format, and to which
/// dimensions, depends on the bytes and the format alone.
#[verifier::external_body]
fn load_from_memory_with_format(source: &[u8], format: SourceFormat) -> (decoded: Result<
    SourceImage,
    image::ImageError,
>)
    ensures
        match decoded {
            Ok(image) => decoded_as(source@, format) == Some(image.size()),
            Err(_) => decoded_as(source@, format) is None,
        },
{
    let format = match format {
        SourceFormat::Png => image::ImageFormat::Png,
        SourceFormat::Jpeg => image::ImageFormat::Jpeg,
        SourceFormat::Gif => image::ImageFormat::Gif,
        SourceFormat::WebP => image::ImageFormat::WebP,
        SourceFormat::Tiff => image::ImageFormat::Tiff,
        SourceFormat::Bmp => image::ImageFormat::Bmp,
        SourceFormat::Ico => image::ImageFormat::Ico,
    };
    match image::load_from_memory_with_format(source, format) {
        Ok(pixels) => Ok(SourceImage { width: pixels.width(), height: pixels.height(), pixels }),
        Err(error) => Err(error),
    }
}

/// Calls `DynamicImage::resize_exact` with the Lanczos filter of window 3,
/// which resamples the pixels into a new image.
///
/// Trusted: the new image has exactly the dimensions asked for, whatever
/// they are. Nothing is claimed of its pixels.
#[verifier::external_body]
fn resize_exact(source: &SourceImage, width: u32, height: u32) -> (resized: SourceImage)
    ensures
        resized.size() == (width, height),
{
    let pixels = source.pixels.resize_exact(width, height, image::imageops::FilterType::Lanczos3);
    SourceImage { width: pixels.width(), height: pixels.height(), pixels }
}

/// Encodes an image as JPEG with `JpegEncoder::new_with_quality` and
/// `DynamicImage::write_with_encoder`, into a buffer in memory.
///
/// Trusted: the encoder refuses an image exactly when it has no pixel or a
/// side beyond 65535 pixels. Nothing is claimed of the bytes.
#[verifier::external_body]
fn write_jpeg(image: &SourceImage, quality: u8) -> (encoded: Result<Vec<u8>, image::ImageError>)
    ensures
        encoded is Ok <==> jpeg_can_hold(image.size().0, image.size().1),
{
    let mut buffer = Vec::new();
    let cursor = std::io::Cursor::new(&mut buffer);
    let encoder = image::codecs::jpeg::JpegEncoder::new_with_quality(cursor, quality);
    match image.pixels.write_with_encoder(encoder) {
        Ok(()) => Ok(buffer),
        Err(error) => Err(error),
    }
}

/// Whether `image` is a derivative as `plan` describes it: named after the
/// tier, with the planned dimensions.
pub open spec fn follows_plan(image: Derivative, plan: DerivativePlan) -> bool {
    &&& image.size_name == tier_name(plan.tier)
    &&& image.width == plan.width
    &&& image.height == plan.height
}

/// Whether `images` are the derivatives that `plan` describes, one for one
/// and in the same order.
pub open spec fn follow_plan(images: Seq<Derivative>, plan: Seq<DerivativePlan>) -> bool {
    &&& images.len() == plan.len()
    &&& forall|i: int| 0 <= i < images.len() ==> follows_plan(#[trigger] images[i], plan[i])
}

/// Whether the derivative that `plan` describes can be written as JPEG.
pub open spec fn encodable(plan: DerivativePlan) -> bool {
    jpeg_can_hold(plan.width, plan.height)
}

/// Whether every derivative of a plan can be written as JPEG.
pub open spec fn all_encodable(plan: Seq<DerivativePlan>) -> bool {
    forall|i: int| 0 <= i < plan.len() ==> encodable(#[trigger] plan[i])
}

/// Whether the derivative at `position` is the first of a plan that cannot
/// be written as JPEG.
pub open spec fn first_refused(plan: Seq<DerivativePlan>, position: int) -> bool {
    &&& 0 <= position < plan.len()
    &&& !encodable(plan[position])
    &&& forall|i: int| 0 <= i < position ==> encodable(#[trigger] plan[i])
}

/// Whether `tier` is the tier of the first derivative of a plan that cannot
/// be written as JPEG.
pub open spec fn first_refused_tier(plan: Seq<DerivativePlan>, tier: Tier) -> bool {
    exists|position: int|
        first_refused(plan, position) && (#[trigger] plan[position]).tier == tier
}

impl CompressedImage {
    /// The derivative that `plan` describes, holding the encoded bytes `data`.
    pub fn from_plan(plan: DerivativePlan, data: Vec<u8>) -> (image: CompressedImage)
        ensures
            follows_plan(image@, plan),
            image.data == data,
    {
        CompressedImage {
            size_name: String::from_str(plan.tier.name()),
            data,
            width: plan.width,
            height: plan.height,
        }
    }
}

/// Settles one derivative once the encoder has answered: its bytes make the
/// derivative that `plan` describes, its failure an encode error for the
/// tier.
pub fn finish_derivative(plan: DerivativePlan, encoded: Result<Vec<u8>, image::ImageError>) -> (result:
    Result<CompressedImage, GalleryError>)
    ensures
        match result {
            Ok(image) => encoded matches Ok(data) && image.data == data && follows_plan(
                image@,
                plan,
            ),
            Err(error) => encoded is Err && error@ == (ErrorView::Encode { tier: plan.tier }),
        },
{
    match encoded {
        Ok(data) => Ok(CompressedImage::from_plan(plan, data)),
        Err(_) => Err(GalleryError::Encode { tier: plan.tier }),
    }
}

/// Produces the derivative of one tier: resamples the source to the planned
/// dimensions, unless the tier keeps the source as it is, and encodes the
/// result as JPEG at the quality of the tier.
///
/// Fails with `Encode` exactly when the planned dimensions are none that a
/// JPEG image can have.
pub fn resize_and_compress(source: &SourceImage, tier: Tier) -> (result: Result<
    CompressedImage,
    GalleryError,
>)
    ensures
        match result {
            Ok(image) => follows_plan(image@, planned(tier, source.size().0, source.size().1))
                && encodable(planned(tier, source.size().0, source.size().1)),
            Err(error) => error@ == (ErrorView::Encode { tier }) && !encodable(
                planned(tier, source.size().0, source.size().1),
            ),
        },
{
    let plan = plan_tier(tier, source.width(), source.height());
    let encoded = match tier.max_dimension() {
        Some(_) => {
            let resized = resize_exact(source, plan.width, plan.height);
            write_jpeg(&resized, tier.quality())
        },
        None => write_jpeg(source, tier.quality()),
    };
    finish_derivative(plan, encoded)
}

/// Generates every derivative of a decoded source, in plan order.
///
/// Succeeds exactly when every planned derivative has dimensions that a JPEG
/// image can have. The first derivative that has not fails the whole call
/// with `Encode` for its tier: a partial set is never returned.
pub fn generate(source: &SourceImage) -> (result: Result<Vec<CompressedImage>, GalleryError>)
    ensures
        match result {
            Ok(images) => follow_plan(
                derivatives_of(images@),
                derivative_plan(source.size().0, source.size().1),
            ) && all_encodable(derivative_plan(source.size().0, source.size().1)),
            Err(error) => error@ matches ErrorView::Encode { tier } && first_refused_tier(
                derivative_plan(source.size().0, source.size().1),
                tier,
            ),
        },
{
    let plan = plan_derivatives(source.width(), source.height());
    let ghost width = source.size().0;
    let ghost height = source.size().1;
    proof {
        crate::tier::law_tier_present_iff_applies(Tier::Original, width, height);
    }
    let mut images: Vec<CompressedImage> = Vec::new();
    let mut i: usize = 0;
    while i < plan.len()
        invariant
            i <= plan.len(),
            plan@ == derivative_plan(width, height),
            (width, height) == source.size(),
            images.len() == i,
            forall|k: int| 0 <= k < i ==> follows_plan((#[trigger] images@[k])@, plan@[k]),
            forall|k: int| 0 <= k < i ==> encodable(#[trigger] plan@[k]),
            forall|k: int|
                0 <= k < plan.len() ==> (#[trigger] plan@[k]) == planned(
                    plan@[k].tier,
                    width,
                    height,
                ),
        decreases plan.len() - i,
    {
        match resize_and_compress(source, plan[i].tier) {
            Ok(image) => images.push(image),
            Err(error) => {
                assert(first_refused(plan@, i as int) && plan@[i as int].tier
                    == error@->Encode_tier);
                return Err(error);
            },
        }
        i = i + 1;
    }
    Ok(images)
}

/// Decodes an encoded source image and generates its derivatives: always a
/// thumbnail and the original, and the small, medium and large tiers that the
/// source exceeds.
///
/// Fails with `Decode` exactly when the bytes cannot be decoded as an image,
/// and with `Encode` exactly when a planned derivative has dimensions that no
/// JPEG image can have, for the tier of the first such derivative.
pub fn process_image(source: &[u8]) -> (result: Result<Vec<CompressedImage>, GalleryError>)
    ensures
        match result {
            Ok(images) => decoded_size(source@) matches Some((width, height)) && follow_plan(
                derivatives_of(images@),
                derivative_plan(width, height),
            ) && all_encodable(derivative_plan(width, height)),
            Err(error) => match error@ {
                ErrorView::Decode => decoded_size(source@) is None,
                ErrorView::Encode { tier } => decoded_size(source@) matches Some((width, height))
                    && first_refused_tier(derivative_plan(width, height), tier),
                _ => false,
            },
        },
{
    match SourceImage::decode(source) {
        Ok(image) => generate(&image),
        Err(error) => Err(error),
    }
}

/// Every derivative of an ordinary source can be written as JPEG: a source
/// that has a pixel, no side beyond the reach of JPEG, and a longer side of
/// at most four hundred times the shorter. Such a source fails to be
/// processed only if it fails to decode.
pub proof fn law_ordinary_sources_encode(width: u32, height: u32)
    requires
        jpeg_can_hold(width, height),
        longest_side(width, height) <= 400 * width,
        longest_side(width, height) <= 400 * height,
    ensures
        all_encodable(derivative_plan(width, height)),
{
    let plan = derivative_plan(width, height);
    crate::tier::law_tier_present_iff_applies(Tier::Original, width, height);
    assert forall|i: int| 0 <= i < plan.len() implies encodable(#[trigger] plan[i]) by {
        let tier = plan[i].tier;
        assert(plan[i] == planned(tier, width, height));
        match tier_limit(tier) {
            Some(limit) => {
                let longest = longest_side(width, height) as int;
                let side = if width > height {
                    height as int
                } else {
                    width as int
                };
                lemma_scaled_side_bounds(side, longest, limit as int);
                assert(400 * side <= 2 * side * limit) by (nonlinear_arith)
                    requires
                        side >= 0,
                        limit >= 200,
                ;
                assert((2 * side * limit + longest) / (2 * longest) >= 1) by (nonlinear_arith)
                    requires
                        longest > 0,
                        2 * side * limit >= longest,
                ;
            },
            None => {},
        }
    }
}

} // verus!
