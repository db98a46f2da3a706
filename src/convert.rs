use vstd::prelude::*;
use vstd::arithmetic::div_mod::lemma_fundamental_div_mod_converse;
use crate::error::CompressError;
use crate::pixels::{ColorChannels, ImageBuffer};

verus! {

#[verifier::external_type_specification]
#[verifier::external_body]
pub struct ExImageError(image::ImageError);

/// What the `image` crate decodes a byte buffer into, as RGBA8 samples with
/// width and height; `None` when it refuses the buffer.
pub uninterp spec fn decode_outcome(data: Seq<u8>) -> Option<(Seq<u8>, u32, u32)>;

/// Relies on `image::load_from_memory` followed by `DynamicImage::to_rgba8`:
/// the decoded image as 8-bit RGBA, four samples per pixel.
#[verifier::external_body]
fn load_rgba8(data: &[u8]) -> (r: Result<(Vec<u8>, u32, u32), image::ImageError>)
    ensures
        r is Ok <==> decode_outcome(data@) is Some,
        r matches Ok((d, w, h)) ==> decode_outcome(data@) == Some((d@, w, h))
            && d@.len() == w as int * h as int * 4,
{
    let img = image::load_from_memory(data)?;
    let rgba = img.to_rgba8();
    let (w, h) = (rgba.width(), rgba.height());
    Ok((rgba.into_raw(), w, h))
}

/// Relies on `Display` of `image::ImageError` for the decoder's diagnostic.
#[verifier::external_body]
pub(crate) fn image_error_text(e: &image::ImageError) -> (r: String) {
    e.to_string()
}

/// Decodes a PNG or JPEG byte buffer into an RGBA image.
pub fn decode_image(data: &[u8]) -> (r: Result<ImageBuffer, CompressError>)
    ensures
        match decode_outcome(data@) {
            Some((d, w, h)) => r matches Ok(img) && img.wf() && img.data@ == d && img.width == w
                && img.height == h && img.channels == ColorChannels::Rgba,
            None => r matches Err(CompressError::DecodeError(_)),
        },
{
    match load_rgba8(data) {
        Ok((d, w, h)) => Ok(ImageBuffer { data: d, width: w, height: h, channels: ColorChannels::Rgba }),
        Err(e) => Err(CompressError::DecodeError(image_error_text(&e))),
    }
}

/// The samples of an RGBA buffer with each pixel's alpha dropped.
pub open spec fn rgb_of(b: Seq<u8>) -> Seq<u8> {
    Seq::new((b.len() / 4 * 3) as nat, |i: int| b[(i / 3) * 4 + i % 3])
}

/// Turns an RGBA image into an RGB one by dropping the alpha sample of each pixel.
pub fn rgba_to_rgb(img: &ImageBuffer) -> (r: ImageBuffer)
    requires
        img.wf(),
        img.channels == ColorChannels::Rgba,
    ensures
        r.wf(),
        r.channels == ColorChannels::Rgb,
        r.width == img.width,
        r.height == img.height,
        r.data@ == rgb_of(img.data@),
{
    let n = img.data.len();
    let pixels = n / 4;
    let ghost spec_out = rgb_of(img.data@);
    assert(n == pixels * 4);
    let mut out: Vec<u8> = Vec::new();
    let mut p: usize = 0;
    while p < pixels
        invariant
            n == img.data@.len(),
            n == pixels * 4,
            spec_out == rgb_of(img.data@),
            p <= pixels,
            out@.len() == p * 3,
            forall|j: int| 0 <= j < out@.len() ==> out@[j] == spec_out[j],
        decreases pixels - p,
    {
        let mut k: usize = 0;
        while k < 3
            invariant
                n == img.data@.len(),
                n == pixels * 4,
                spec_out == rgb_of(img.data@),
                p < pixels,
                k <= 3,
                out@.len() == p * 3 + k,
                forall|j: int| 0 <= j < out@.len() ==> out@[j] == spec_out[j],
            decreases 3 - k,
        {
            proof {
                lemma_fundamental_div_mod_converse((p * 3 + k) as int, 3, p as int, k as int);
            }
            out.push(img.data[p * 4 + k]);
            k = k + 1;
        }
        p = p + 1;
    }
    assert(out@ =~= spec_out);
    assert(out@.len() == img.width as int * img.height as int * 3);
    ImageBuffer { data: out, width: img.width, height: img.height, channels: ColorChannels::Rgb }
}

} // verus!
