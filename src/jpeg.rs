use vstd::prelude::*;
use crate::error::CompressError;
use crate::pixels::{ColorChannels, ImageBuffer};

verus! {

/// The largest side libjpeg accepts.
pub const JPEG_MAX_DIMENSION: u32 = 65500;

#[verifier::external_type_specification]
#[verifier::external_body]
pub struct ExEncodingError(jpeg_encoder::EncodingError);

/// What mozjpeg encodes RGB samples of a `w` by `h` image into at a quality.
pub uninterp spec fn mozjpeg_of(rgb: Seq<u8>, w: u32, h: u32, quality: u8) -> Seq<u8>;

/// What jpeg-encoder encodes RGB samples of a `w` by `h` image into at a quality.
pub uninterp spec fn jpeg_encoder_of(rgb: Seq<u8>, w: u16, h: u16, quality: u8) -> Seq<u8>;

/// True when libjpeg accepts a `w` by `h` image.
pub open spec fn jpeg_size_ok(w: int, h: int) -> bool {
    0 < w <= JPEG_MAX_DIMENSION && 0 < h <= JPEG_MAX_DIMENSION
}

/// True when the bytes open with the start-of-image marker and another marker.
pub open spec fn starts_as_jpeg(v: Seq<u8>) -> bool {
    v.len() >= 3 && v[0] == 0xFFu8 && v[1] == 0xD8u8 && v[2] == 0xFFu8
}

/// Relies on the `mozjpeg::Compress` sequence for RGB input: size, quality,
/// in-memory destination, start, all rows, finish, then the output. libjpeg
/// stops on a zero or oversized side, which `requires` leaves out; on a
/// complete image the output is non-empty and opens with the SOI marker
/// followed by the next marker.
#[verifier::external_body]
fn mozjpeg_encode(rgb: &[u8], w: u32, h: u32, quality: u8) -> (r: Result<Vec<u8>, ()>)
    requires
        rgb@.len() == w as int * h as int * 3,
        jpeg_size_ok(w as int, h as int),
    ensures
        r matches Ok(v) ==> v@ == mozjpeg_of(rgb@, w, h, quality) && starts_as_jpeg(v@),
        r is Ok,
{
    let mut comp = mozjpeg::Compress::new(mozjpeg::ColorSpace::JCS_RGB);
    comp.set_size(w as usize, h as usize);
    comp.set_quality(quality.into());
    comp.set_mem_dest();
    comp.start_compress();
    comp.write_scanlines(rgb);
    comp.finish_compress();
    comp.data_to_vec()
}

/// High-quality variant: mozjpeg with RGB input, all rows written in order,
/// output kept in memory.
pub fn do_mozjpeg_compression(img: &ImageBuffer, quality: u8) -> (r: Result<Vec<u8>, CompressError>)
    requires
        img.wf(),
        img.channels == ColorChannels::Rgb,
    ensures
        jpeg_size_ok(img.width as int, img.height as int) ==> (r matches Ok(v) && v@ == mozjpeg_of(
            img.data@,
            img.width,
            img.height,
            quality,
        ) && starts_as_jpeg(v@)),
        !jpeg_size_ok(img.width as int, img.height as int) ==> r matches Err(
            CompressError::EncodeError(_),
        ),
{
    let w = img.width;
    let h = img.height;
    if w == 0 || h == 0 || w > JPEG_MAX_DIMENSION || h > JPEG_MAX_DIMENSION {
        return Err(CompressError::EncodeError(String::from_str("image size out of JPEG range")));
    }
    match mozjpeg_encode(img.data.as_slice(), w, h, quality) {
        Ok(v) => Ok(v),
        Err(()) => Err(CompressError::EncodeError(String::from_str("mozjpeg produced no output"))),
    }
}

/// Relies on `jpeg_encoder::Encoder::encode` writing into a `Vec<u8>`: for RGB
/// data of the declared size it fails only on a zero side, and otherwise the
/// output opens with the SOI marker followed by the APP0 marker.
#[verifier::external_body]
fn jpeg_encoder_encode(data: &[u8], w: u16, h: u16, quality: u8) -> (r: Result<Vec<u8>, jpeg_encoder::EncodingError>)
    requires
        data@.len() == w as int * h as int * 3,
    ensures
        r is Ok <==> (w > 0 && h > 0),
        r matches Ok(v) ==> v@ == jpeg_encoder_of(data@, w, h, quality) && starts_as_jpeg(v@),
{
    let mut output = Vec::new();
    jpeg_encoder::Encoder::new(&mut output, quality).encode(data, w, h, jpeg_encoder::ColorType::Rgb)?;
    Ok(output)
}

/// Relies on `Display` of `jpeg_encoder::EncodingError` for its diagnostic.
#[verifier::external_body]
fn encoding_error_text(e: &jpeg_encoder::EncodingError) -> (r: String) {
    e.to_string()
}

/// Fast variant: a baseline JPEG encoder that favours speed over size.
pub fn do_jpeg_encoder_compression(img: &ImageBuffer, quality: u8) -> (r: Result<Vec<u8>, CompressError>)
    requires
        img.wf(),
        img.channels == ColorChannels::Rgb,
    ensures
        r is Ok <==> (0 < img.width <= 0xffff && 0 < img.height <= 0xffff),
        r matches Ok(v) ==> v@ == jpeg_encoder_of(img.data@, img.width as u16, img.height as u16, quality)
            && starts_as_jpeg(v@),
        r matches Err(e) ==> e matches CompressError::EncodeError(_),
{
    if img.width > 0xffff || img.height > 0xffff {
        return Err(CompressError::EncodeError(String::from_str("image size out of JPEG range")));
    }
    match jpeg_encoder_encode(img.data.as_slice(), img.width as u16, img.height as u16, quality) {
        Ok(v) => Ok(v),
        Err(e) => Err(CompressError::EncodeError(encoding_error_text(&e))),
    }
}

} // verus!
