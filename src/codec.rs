//! The image codec: PNG decoding, luma conversion and PNG encoding come from the `image`
//! crate; this module declares them to the verifier and states the container's signature.
use image::ImageEncoder;
use vstd::prelude::*;

verus! {

#[verifier::external_type_specification]
#[verifier::external_body]
pub struct ExImageError(image::ImageError);

/// Number of bytes in the fixed header that opens every PNG file.
pub const PNG_SIGNATURE_LEN: usize = 8;

/// The eight bytes that open every PNG file.
pub open spec fn png_signature() -> Seq<u8> {
    seq![137u8, 80u8, 78u8, 71u8, 13u8, 10u8, 26u8, 10u8]
}

/// `b` opens with the PNG signature.
pub open spec fn starts_with_png_signature(b: Seq<u8>) -> bool {
    b.len() >= 8 && b.subrange(0, 8) == png_signature()
}

/// Whether the `image` crate's PNG decoder accepts `b`.
pub uninterp spec fn decodes(b: Seq<u8>) -> bool;

/// Width of the image that the PNG decoder reads from `b`.
pub uninterp spec fn luma_width(b: Seq<u8>) -> u32;

/// Height of the image that the PNG decoder reads from `b`.
pub uninterp spec fn luma_height(b: Seq<u8>) -> u32;

/// Raw 8-bit luma samples that `to_luma8` makes of the image decoded from `b`.
pub uninterp spec fn luma_pixels(b: Seq<u8>) -> Seq<u8>;

/// What the PNG encoder of the `image` crate makes of a `width` x `height` 8-bit luma raster,
/// or `None` where it reports an error.
pub uninterp spec fn png_of(width: u32, height: u32, pixels: Seq<u8>) -> Option<Seq<u8>>;

/// A single-channel, 8 bits per sample raster, row by row.
pub struct GrayImage {
    pub width: u32,
    pub height: u32,
    pub pixels: Vec<u8>,
}

impl GrayImage {
    /// The raster holds exactly one sample per pixel.
    pub open spec fn wf(&self) -> bool {
        self.pixels@.len() == self.width as int * self.height as int
    }
}

/// Whether `b` opens with the PNG signature.
pub fn has_png_signature(b: &[u8]) -> (r: bool)
    ensures
        r == starts_with_png_signature(b@),
{
    if b.len() < PNG_SIGNATURE_LEN {
        return false;
    }
    let sig: [u8; 8] = [137u8, 80u8, 78u8, 71u8, 13u8, 10u8, 26u8, 10u8];
    let mut i: usize = 0;
    while i < PNG_SIGNATURE_LEN
        invariant
            b@.len() >= 8,
            sig@ == png_signature(),
            0 <= i <= 8,
            forall|k: int| 0 <= k < i ==> b@[k] == png_signature()[k],
        decreases 8 - i,
    {
        if b[i] != sig[i] {
            proof {
                assert(b@.subrange(0, 8)[i as int] != png_signature()[i as int]);
            }
            return false;
        }
        i = i + 1;
    }
    assert(b@.subrange(0, 8) =~= png_signature());
    true
}

/// Relies on `image::load_from_memory_with_format` with `ImageFormat::Png`, which uses the
/// built-in PNG decoder only, and on `DynamicImage::to_luma8`, `ImageBuffer::dimensions` and
/// `ImageBuffer::into_raw`: whether the bytes decode, and the luma raster made of them,
/// depend on the bytes alone, and an image buffer holds at least width x height samples.
#[verifier::external_body]
pub(crate) fn decode_luma(b: &[u8]) -> (r: Option<GrayImage>)
    ensures
        r is Some <==> decodes(b@),
        r matches Some(g) ==> g.width == luma_width(b@) && g.height == luma_height(b@)
            && g.pixels@ == luma_pixels(b@) && g.pixels@.len() >= g.width as int
            * g.height as int,
{
    match image::load_from_memory_with_format(b, image::ImageFormat::Png) {
        Ok(img) => {
            let g = img.to_luma8();
            let (width, height) = g.dimensions();
            Some(GrayImage { width, height, pixels: g.into_raw() })
        },
        Err(_) => None,
    }
}

/// Relies on `image::codecs::png::PngEncoder::write_image` with 8-bit luma samples, which
/// panics unless the buffer holds exactly width x height samples.
#[verifier::external_body]
pub(crate) fn encode_png_l8(width: u32, height: u32, pixels: &[u8]) -> (r: Result<
    Vec<u8>,
    image::ImageError,
>)
    requires
        pixels@.len() == width as int * height as int,
    ensures
        r is Ok <==> png_of(width, height, pixels@) is Some,
        r matches Ok(v) ==> v@ == png_of(width, height, pixels@)->0,
{
    let mut out: Vec<u8> = Vec::new();
    image::codecs::png::PngEncoder::new(&mut out)
        .write_image(pixels, width, height, image::ExtendedColorType::L8)
        .map(|_| out)
}

} // verus!
