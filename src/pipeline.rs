//! The transform: decode a PNG, reduce it to luma, encode it as PNG again.
use crate::codec::{
    decode_luma, decodes, encode_png_l8, has_png_signature, luma_height, luma_pixels, luma_width,
    png_of, starts_with_png_signature, GrayImage,
};
use vstd::prelude::*;

verus! {

/// Why a transform failed.
#[derive(Debug, Clone, Copy, PartialEq, Eq, Structural)]
pub enum TransformError {
    /// The input is not a PNG image that the codec can read.
    Decode,
    /// The codec could not write the grayscale image.
    Encode,
}

/// What the PNG encoder makes of the luma raster decoded from `b`, samples past the last
/// pixel left out; `None` where the encoder reports an error.
pub open spec fn gray_png(b: Seq<u8>) -> Option<Seq<u8>> {
    png_of(
        luma_width(b),
        luma_height(b),
        luma_pixels(b).subrange(0, luma_width(b) as int * luma_height(b) as int),
    )
}

/// Encodes a grayscale raster as PNG. The result is `Ok` exactly when the raster is
/// well formed, the encoder succeeds, and its output opens with the PNG signature.
pub fn encode_gray(img: &GrayImage) -> (r: Result<Vec<u8>, TransformError>)
    ensures
        r is Ok <==> (img.wf() && png_of(img.width, img.height, img.pixels@) is Some
            && starts_with_png_signature(png_of(img.width, img.height, img.pixels@)->0)),
        r matches Ok(v) ==> v@ == png_of(img.width, img.height, img.pixels@)->0,
        r matches Err(e) ==> e == TransformError::Encode,
{
    let w = img.width as u64;
    let h = img.height as u64;
    proof {
        lemma_u32_product_fits(img.width, img.height);
    }
    if w * h != img.pixels.len() as u64 {
        return Err(TransformError::Encode);
    }
    match encode_png_l8(img.width, img.height, img.pixels.as_slice()) {
        Ok(v) => {
            if has_png_signature(v.as_slice()) {
                Ok(v)
            } else {
                Err(TransformError::Encode)
            }
        },
        Err(_) => Err(TransformError::Encode),
    }
}

/// Turns PNG bytes into the PNG bytes of the same image in 8-bit grayscale.
///
/// Input that does not open with the PNG signature, or that the decoder refuses, gives
/// `Err(Decode)`. Input that decodes gives `Ok` with the encoding of its luma raster wherever
/// the encoder succeeds with output that opens with the PNG signature, and `Err(Encode)`
/// otherwise. The result depends on the input bytes alone.
pub fn transform(input: &[u8]) -> (r: Result<Vec<u8>, TransformError>)
    ensures
        r == Err::<Vec<u8>, TransformError>(TransformError::Decode) <==> !starts_with_png_signature(
            input@,
        ) || !decodes(input@),
        input@.len() == 0 ==> r == Err::<Vec<u8>, TransformError>(TransformError::Decode),
        starts_with_png_signature(input@) && decodes(input@) ==> (r is Ok <==> (gray_png(
            input@,
        ) is Some && starts_with_png_signature(gray_png(input@)->0))),
        r matches Ok(v) ==> v@ == gray_png(input@)->0 && starts_with_png_signature(v@),
{
    if !has_png_signature(input) {
        return Err(TransformError::Decode);
    }
    let gray = match decode_luma(input) {
        Some(g) => g,
        None => return Err(TransformError::Decode),
    };
    let exact = exact_raster(gray);
    encode_gray(&exact)
}

/// The product of two `u32` values fits in a `u64`.
proof fn lemma_u32_product_fits(a: u32, b: u32)
    ensures
        0 <= a as int * b as int <= 0xffff_ffff_ffff_ffff,
{
    assert(0 <= a as int * b as int <= 0xffff_ffff * 0xffff_ffff) by (nonlinear_arith)
        requires
            0 <= a <= 0xffff_ffff,
            0 <= b <= 0xffff_ffff,
    ;
}

/// Drops any samples past the last pixel, so the raster is well formed.
fn exact_raster(img: GrayImage) -> (r: GrayImage)
    requires
        img.pixels@.len() >= img.width as int * img.height as int,
    ensures
        r.wf(),
        r.width == img.width,
        r.height == img.height,
        r.pixels@ == img.pixels@.subrange(0, img.width as int * img.height as int),
{
    let GrayImage { width, height, mut pixels } = img;
    proof {
        lemma_u32_product_fits(width, height);
    }
    let n: u64 = width as u64 * height as u64;
    pixels.truncate(n as usize);
    GrayImage { width, height, pixels }
}

} // verus!
