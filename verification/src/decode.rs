use vstd::prelude::*;
use crate::texture::Texture;

verus! {

/// A decoded image of any pixel format. Nothing inside it is visible here;
/// what the library reads of it goes through `image_size` and `image_rgba8`.
#[verifier::external_type_specification]
#[verifier::external_body]
pub struct ExDynamicImage(image::DynamicImage);

/// The decoder's reason for turning bytes down.
#[verifier::external_type_specification]
#[verifier::external_body]
pub struct ExImageError(image::ImageError);

/// Width and height of an image, in pixels.
pub uninterp spec fn image_size(img: image::DynamicImage) -> (u32, u32);

/// The pixels of an image as 8-bit RGBA, row after row from the top, four
/// bytes for every pixel.
pub uninterp spec fn image_rgba8(img: image::DynamicImage) -> Seq<u8>;

/// Number of bytes that an image of the given size takes as 8-bit RGBA.
pub open spec fn rgba8_len(size: (u32, u32)) -> int {
    4 * (size.0 as int) * (size.1 as int)
}

/// What the decoder makes of encoded bytes: an image, or its reason for
/// turning them down.
pub uninterp spec fn decoded_image(bytes: Seq<u8>) -> Result<image::DynamicImage, image::ImageError>;

/// Decodes an encoded image, guessing its format from its first bytes.
///
/// Trusted: calls `image::load_from_memory`. The outcome depends on the
/// bytes alone; it is what `decoded_image` stands for.
#[verifier::external_body]
pub(crate) fn load_from_memory(bytes: &[u8]) -> (r: Result<image::DynamicImage, image::ImageError>)
    ensures
        r == decoded_image(bytes@),
{
    image::load_from_memory(bytes)
}

/// Width and height of a decoded image.
///
/// Trusted: calls `GenericImageView::dimensions` on the image; the result is
/// what `image_size` stands for.
#[verifier::external_body]
pub(crate) fn dimensions(img: &image::DynamicImage) -> (d: (u32, u32))
    ensures
        d == image_size(*img),
{
    image::GenericImageView::dimensions(img)
}

/// A copy of a decoded image's pixels as 8-bit RGBA.
///
/// Trusted: calls `DynamicImage::to_rgba8` and takes the buffer out of the
/// result with `ImageBuffer::into_raw`. The conversion allocates a buffer of
/// four bytes for every pixel of the image and panics if that count does not
/// fit `usize`, which the precondition rules out.
#[verifier::external_body]
pub(crate) fn to_rgba8(img: &image::DynamicImage) -> (pixels: Vec<u8>)
    requires
        rgba8_len(image_size(*img)) <= usize::MAX,
    ensures
        pixels@ == image_rgba8(*img),
        pixels@.len() == rgba8_len(image_size(*img)),
{
    img.to_rgba8().into_raw()
}

/// Why a texture could not be made.
#[derive(Clone, Copy, Debug, PartialEq, Eq, Structural)]
pub enum ResourceError {
    /// The bytes are not an image that the decoder reads.
    Undecodable,
    /// The image is too wide for a row's byte count to fit 32 bits, or too
    /// large for its texels to fit in memory.
    Oversized,
    /// A mesh lacks a texture coordinate or a normal for one of its
    /// vertices, or names a material that the model does not have.
    Malformed,
}

/// Whether an image of this size can be uploaded: a row's byte count fits 32
/// bits and the byte count of all texels fits `usize`.
pub open spec fn uploadable(size: (u32, u32)) -> bool {
    4 * size.0 <= u32::MAX && rgba8_len(size) <= usize::MAX
}

pub fn is_uploadable(width: u32, height: u32) -> (ok: bool)
    ensures
        ok == uploadable((width, height)),
{
    if width > u32::MAX / 4 {
        return false;
    }
    let row: u64 = 4 * (width as u64);
    assert(row * height <= 0xFFFF_FFFF * 0xFFFF_FFFF) by (nonlinear_arith)
        requires
            0 <= row <= 0xFFFF_FFFF,
            0 <= height <= 0xFFFF_FFFF,
    ;
    let total: u64 = row * (height as u64);
    assert(total == rgba8_len((width, height))) by (nonlinear_arith)
        requires
            total == (4 * width) * height,
    ;
    total <= usize::MAX as u64
}

/// A label as contracts speak of it.
pub open spec fn label_text(label: Option<&str>) -> Option<Seq<char>> {
    match label {
        Some(text) => Some(text@),
        None => None,
    }
}

/// Whether `r` is the right answer for a decoded image: the texture of the
/// image if it can be uploaded, and else the refusal of an oversized image.
pub open spec fn answers_image(
    r: Result<Texture, ResourceError>,
    img: image::DynamicImage,
    label: Option<Seq<char>>,
) -> bool {
    if uploadable(image_size(img)) {
        r is Ok && r->Ok_0.is_image_texture(
            image_size(img).0,
            image_size(img).1,
            image_rgba8(img),
            label,
        )
    } else {
        r == Err::<Texture, ResourceError>(ResourceError::Oversized)
    }
}

/// Whether `r` is the right answer for what the decoder said.
pub open spec fn answers_decoded(
    r: Result<Texture, ResourceError>,
    decoded: Result<image::DynamicImage, image::ImageError>,
    label: Seq<char>,
) -> bool {
    match decoded {
        Ok(img) => answers_image(r, img, Some(label)),
        Err(_) => r == Err::<Texture, ResourceError>(ResourceError::Undecodable),
    }
}

/// Why encoded bytes give no texture, if they give none: the decoder turns
/// them down, or the image that it makes of them cannot be uploaded.
pub open spec fn refusal(bytes: Seq<u8>) -> Option<ResourceError> {
    match decoded_image(bytes) {
        Ok(img) => if uploadable(image_size(img)) {
            None
        } else {
            Some(ResourceError::Oversized)
        },
        Err(_) => Some(ResourceError::Undecodable),
    }
}

impl Texture {
    /// Describes the texture of a decoded image: its size, its pixels as
    /// 8-bit RGBA and the write that fills it. An image that cannot be
    /// uploaded is turned down.
    pub fn from_image(img: &image::DynamicImage, label: Option<&str>) -> (r: Result<
        Self,
        ResourceError,
    >)
        ensures
            answers_image(r, *img, label_text(label)),
    {
        let (width, height) = dimensions(img);
        if !is_uploadable(width, height) {
            return Err(ResourceError::Oversized);
        }
        let rgba = to_rgba8(img);
        Ok(Texture::from_rgba8(width, height, rgba, label))
    }

    /// What becomes of the decoder's answer: the texture of the image it
    /// decoded, or the reason why there is none.
    pub fn from_decoded(
        decoded: Result<image::DynamicImage, image::ImageError>,
        label: &str,
    ) -> (r: Result<Self, ResourceError>)
        ensures
            answers_decoded(r, decoded, label@),
    {
        match decoded {
            Ok(img) => Texture::from_image(&img, Some(label)),
            Err(_) => Err(ResourceError::Undecodable),
        }
    }

    /// Decodes an encoded image and describes its texture under the given
    /// label: the answer is the one that `from_decoded` gives for what the
    /// decoder makes of the bytes.
    pub fn from_bytes(bytes: &[u8], label: &str) -> (r: Result<Self, ResourceError>)
        ensures
            answers_decoded(r, decoded_image(bytes@), label@),
            r is Ok <==> refusal(bytes@) is None,
            r matches Err(e) ==> refusal(bytes@) == Some(e),
    {
        Texture::from_decoded(load_from_memory(bytes), label)
    }
}

} // verus!
