use vstd::prelude::*;
use crate::convert::{decode_image, decode_outcome, rgb_of, rgba_to_rgb};
use crate::error::CompressError;
use crate::jpeg::{do_jpeg_encoder_compression, do_mozjpeg_compression, jpeg_encoder_of, jpeg_size_ok, mozjpeg_of, starts_as_jpeg};
use crate::metadata::{exif_summary, make_field_of, model_field_of, orientation_code_of, read_metadata, summary_of, Metadata};
use crate::orientation::{apply_exif_orientation, oriented, oriented_height, oriented_width};
use crate::pixels::{ColorChannels, ImageBuffer};
use crate::quantize::{do_png_compression, indexed_png_header, png_spec};
use crate::resize::{fit_within, fitted_samples, target_size};
use crate::sniff::{detect_image_type, sniff_spec, ImageType};
use crate::text::{lower_of, lowercase, str_eq};
use crate::zerocopy::can_use_zero_copy;

verus! {

/// The output formats a request may ask for.
#[derive(Debug, Clone, Copy, PartialEq, Eq, Structural)]
pub enum OutputFormat {
    Jpeg,
    Png,
    Webp,
}

/// The encoder strategies a request may name.
#[derive(Debug, Clone, Copy, PartialEq, Eq, Structural)]
pub enum CompressionAlgorithm {
    MozJpeg,
    JpegEncoder,
    PngQuantized,
}

/// Quality and strategy of a compression.
#[derive(Debug, Clone, Copy)]
pub struct CompressionOptions {
    pub quality: u8,
    pub algorithm: CompressionAlgorithm,
}

/// A validated request: quality in 1..=100, target format, strategy, and an
/// optional `(max_width, max_height)` box to fit in.
#[derive(Debug, Clone, Copy)]
pub struct CompressionRequest {
    pub quality: u8,
    pub output_format: OutputFormat,
    pub algorithm: CompressionAlgorithm,
    pub bounds: Option<(u32, u32)>,
}

/// The format a lower-case name stands for.
pub open spec fn format_named(s: Seq<char>) -> Option<OutputFormat> {
    if s == "jpeg"@ || s == "jpg"@ {
        Some(OutputFormat::Jpeg)
    } else if s == "png"@ {
        Some(OutputFormat::Png)
    } else if s == "webp"@ {
        Some(OutputFormat::Webp)
    } else {
        None
    }
}

/// The strategy a lower-case name stands for; any other name gets the
/// high-quality JPEG encoder.
pub open spec fn algorithm_named(s: Seq<char>) -> CompressionAlgorithm {
    if s == "jpeg-encoder"@ || s == "fast-jpeg"@ {
        CompressionAlgorithm::JpegEncoder
    } else if s == "png-quantized"@ {
        CompressionAlgorithm::PngQuantized
    } else {
        CompressionAlgorithm::MozJpeg
    }
}

impl OutputFormat {
    /// Reads an already lower-cased format name.
    pub fn from_lowercase(l: &str) -> (r: Option<OutputFormat>)
        ensures
            r == format_named(l@),
    {
        if str_eq(l, "jpeg") || str_eq(l, "jpg") {
            Some(OutputFormat::Jpeg)
        } else if str_eq(l, "png") {
            Some(OutputFormat::Png)
        } else if str_eq(l, "webp") {
            Some(OutputFormat::Webp)
        } else {
            None
        }
    }

    /// Reads a format name, ignoring case.
    pub fn from_name(name: &str) -> (r: Option<OutputFormat>)
        ensures
            r == format_named(lower_of(name@)),
    {
        let l = lowercase(name);
        OutputFormat::from_lowercase(l.as_str())
    }
}

impl CompressionAlgorithm {
    /// Reads an already lower-cased strategy name.
    pub fn from_lowercase(l: &str) -> (r: CompressionAlgorithm)
        ensures
            r == algorithm_named(l@),
    {
        if str_eq(l, "jpeg-encoder") || str_eq(l, "fast-jpeg") {
            CompressionAlgorithm::JpegEncoder
        } else if str_eq(l, "png-quantized") {
            CompressionAlgorithm::PngQuantized
        } else {
            CompressionAlgorithm::MozJpeg
        }
    }

    /// Reads a strategy name, ignoring case; unknown names fall back to the
    /// high-quality JPEG encoder.
    pub fn from_name(name: &str) -> (r: CompressionAlgorithm)
        ensures
            r == algorithm_named(lower_of(name@)),
    {
        let l = lowercase(name);
        CompressionAlgorithm::from_lowercase(l.as_str())
    }
}

/// WebP output is recognised but not available: it always fails.
pub fn do_webp_compression(data: &[u8], width: u32, height: u32, quality: u8) -> (r: Result<Vec<u8>, CompressError>)
    ensures
        r == Err::<Vec<u8>, CompressError>(CompressError::NotImplemented),
{
    Err(CompressError::NotImplemented)
}

/// The samples and size of an RGBA image after fitting the optional box.
pub open spec fn fitted(d: Seq<u8>, w: u32, h: u32, bounds: Option<(u32, u32)>) -> (Seq<u8>, u32, u32) {
    match bounds {
        None => (d, w, h),
        Some((mw, mh)) => {
            let (tw, th) = target_size(w as int, h as int, mw as int, mh as int);
            (fitted_samples(d, w, h, mw, mh), tw as u32, th as u32)
        },
    }
}

/// The encoded bytes of an RGBA image for a request, or `None` when the
/// encoder refuses it. JPEG drops the alpha first; the fast encoder is used
/// only when asked for, any other strategy gets mozjpeg.
pub open spec fn encode_spec(d: Seq<u8>, w: u32, h: u32, req: CompressionRequest) -> Option<Seq<u8>> {
    match req.output_format {
        OutputFormat::Jpeg => if req.algorithm == CompressionAlgorithm::JpegEncoder {
            if 0 < w <= 0xffff && 0 < h <= 0xffff {
                Some(jpeg_encoder_of(rgb_of(d), w as u16, h as u16, req.quality))
            } else {
                None
            }
        } else {
            if jpeg_size_ok(w as int, h as int) {
                Some(mozjpeg_of(rgb_of(d), w, h, req.quality))
            } else {
                None
            }
        },
        OutputFormat::Png => png_spec(d, w, h, req.quality),
        OutputFormat::Webp => None,
    }
}

/// The encoding step on a decoded image already oriented: fit the box when
/// one is given, then dispatch by format.
pub fn compress_decoded(img: ImageBuffer, request: &CompressionRequest, zero_copy: bool) -> (r: Result<(Vec<u8>, u32, u32), CompressError>)
    requires
        img.wf(),
        img.channels == ColorChannels::Rgba,
        1 <= request.quality <= 100,
    ensures
        ({
            let (fd, fw, fh) = fitted(img.data@, img.width, img.height, request.bounds);
            &&& r is Ok <==> encode_spec(fd, fw, fh, *request) is Some
            &&& r matches Ok((v, w, h)) ==> Some(v@) == encode_spec(fd, fw, fh, *request) && w == fw && h == fh
        }),
        request.output_format == OutputFormat::Webp ==> r == Err::<(Vec<u8>, u32, u32), CompressError>(
            CompressError::NotImplemented,
        ),
        request.output_format == OutputFormat::Png ==> (r matches Ok((v, w, h)) ==> indexed_png_header(v@, w, h)),
        request.output_format == OutputFormat::Jpeg ==> (r matches Ok((v, w, h)) ==> starts_as_jpeg(v@)),
        r matches Err(e) ==> (e matches CompressError::NotImplemented) || (e matches CompressError::EncodeError(_))
            || (e matches CompressError::QuantizationFailure(_)),
{
    let img = match request.bounds {
        Some((mw, mh)) => fit_within(img, mw, mh),
        None => img,
    };
    match request.output_format {
        OutputFormat::Jpeg => {
            let rgb = rgba_to_rgb(&img);
            let bytes = match request.algorithm {
                CompressionAlgorithm::JpegEncoder => do_jpeg_encoder_compression(&rgb, request.quality)?,
                _ => do_mozjpeg_compression(&rgb, request.quality)?,
            };
            Ok((bytes, img.width, img.height))
        },
        OutputFormat::Png => do_png_compression(&img, request.quality, zero_copy),
        OutputFormat::Webp => {
            let bytes = do_webp_compression(&img.data, img.width, img.height, request.quality)?;
            Ok((bytes, img.width, img.height))
        },
    }
}

/// The orientation code the pipeline applies: the one read from a JPEG's
/// metadata, else 1 (no change). PNG input is never reoriented.
pub open spec fn applied_code(data: Seq<u8>) -> u16 {
    if sniff_spec(data) == Ok::<ImageType, CompressError>(ImageType::JPEG) {
        match orientation_code_of(data) {
            Some(c) => c,
            None => 1,
        }
    } else {
        1
    }
}

/// The summary text of a request on these bytes.
pub open spec fn pipeline_summary(data: Seq<u8>) -> Seq<char> {
    if sniff_spec(data) == Ok::<ImageType, CompressError>(ImageType::JPEG) {
        summary_of(true, orientation_code_of(data), make_field_of(data), model_field_of(data))
    } else {
        summary_of(false, None, None, None)
    }
}

/// The encoded bytes and size the pipeline produces for decodable input:
/// decode, orient a JPEG, fit the box, encode. `None` when the encoder refuses.
pub open spec fn pipeline_spec(data: Seq<u8>, req: CompressionRequest) -> Option<(Seq<u8>, u32, u32)> {
    match decode_outcome(data) {
        Some((d, w, h)) => {
            let c = applied_code(data);
            let od = if sniff_spec(data) == Ok::<ImageType, CompressError>(ImageType::JPEG) {
                oriented(d, w as int, h as int, 4, c)
            } else {
                d
            };
            let ow = oriented_width(c, w as int, h as int) as u32;
            let oh = oriented_height(c, w as int, h as int) as u32;
            let (fd, fw, fh) = fitted(od, ow, oh, req.bounds);
            match encode_spec(fd, fw, fh, req) {
                Some(v) => Some((v, fw, fh)),
                None => None,
            }
        },
        None => None,
    }
}

/// The pipeline on a request already parsed: check the quality, sniff, read
/// the metadata of a JPEG, decode, correct the orientation of a JPEG, fit the
/// box, encode.
pub fn compress_request(data: &[u8], request: &CompressionRequest) -> (r: Result<(Vec<u8>, u32, u32, String), CompressError>)
    ensures
        !(1 <= request.quality <= 100) ==> r == Err::<(Vec<u8>, u32, u32, String), CompressError>(
            CompressError::InvalidQuality,
        ),
        1 <= request.quality <= 100 && sniff_spec(data@) is Err ==> r == Err::<(Vec<u8>, u32, u32, String), CompressError>(
            CompressError::UnrecognizedFormat,
        ),
        1 <= request.quality <= 100 && sniff_spec(data@) is Ok && decode_outcome(data@) is None ==> r matches Err(
            CompressError::DecodeError(_),
        ),
        1 <= request.quality <= 100 && sniff_spec(data@) is Ok && decode_outcome(data@) is Some ==> {
            &&& r is Ok <==> pipeline_spec(data@, *request) is Some
            &&& r matches Ok((v, w, h, s)) ==> pipeline_spec(data@, *request) == Some((v@, w, h))
                && s@ == pipeline_summary(data@)
        },
        1 <= request.quality <= 100 && sniff_spec(data@) is Ok && decode_outcome(data@) is Some
            && request.output_format == OutputFormat::Webp ==> r == Err::<(Vec<u8>, u32, u32, String), CompressError>(
            CompressError::NotImplemented,
        ),
        request.output_format == OutputFormat::Png ==> (r matches Ok((v, w, h, s)) ==> indexed_png_header(v@, w, h)),
        request.output_format == OutputFormat::Jpeg ==> (r matches Ok((v, w, h, s)) ==> starts_as_jpeg(v@)),
{
    if request.quality < 1 || request.quality > 100 {
        return Err(CompressError::InvalidQuality);
    }
    let kind = detect_image_type(data)?;
    let is_jpeg = kind == ImageType::JPEG;
    let meta = if is_jpeg {
        read_metadata(data)
    } else {
        Metadata { orientation: None, make: None, model: None }
    };
    let img = decode_image(data)?;
    let code: u16 = match meta.orientation {
        Some(c) => c,
        None => 1,
    };
    let img = if is_jpeg { apply_exif_orientation(img, code) } else { img };
    let summary = exif_summary(is_jpeg, &meta);
    let zero_copy = can_use_zero_copy();
    let (bytes, w, h) = compress_decoded(img, request, zero_copy)?;
    Ok((bytes, w, h, summary))
}

/// The request a format name, quality, strategy name and box stand for; `None`
/// when the format name is unknown.
pub open spec fn request_of(format: Seq<char>, quality: u8, algorithm: Seq<char>, bounds: Option<(u32, u32)>) -> Option<CompressionRequest> {
    match format_named(lower_of(format)) {
        Some(f) => Some(
            CompressionRequest { quality, output_format: f, algorithm: algorithm_named(lower_of(algorithm)), bounds },
        ),
        None => None,
    }
}

/// Compresses an image buffer into the named format at the given quality with
/// the named strategy, optionally fitting it in a `(max_width, max_height)` box.
/// Returns the encoded bytes, the output width and height, and a short text on
/// the metadata. An unknown strategy name gets the high-quality JPEG encoder;
/// an unknown format name fails once decoding has succeeded.
pub fn compress_image(data: &[u8], format: &str, quality: u8, algorithm: &str, bounds: Option<(u32, u32)>) -> (r: Result<(Vec<u8>, u32, u32, String), CompressError>)
    ensures
        !(1 <= quality <= 100) ==> r == Err::<(Vec<u8>, u32, u32, String), CompressError>(
            CompressError::InvalidQuality,
        ),
        1 <= quality <= 100 && sniff_spec(data@) is Err ==> r == Err::<(Vec<u8>, u32, u32, String), CompressError>(
            CompressError::UnrecognizedFormat,
        ),
        1 <= quality <= 100 && sniff_spec(data@) is Ok && decode_outcome(data@) is None ==> r matches Err(
            CompressError::DecodeError(_),
        ),
        1 <= quality <= 100 && sniff_spec(data@) is Ok && decode_outcome(data@) is Some ==> match request_of(
            format@,
            quality,
            algorithm@,
            bounds,
        ) {
            None => r matches Err(CompressError::UnsupportedOutputFormat(_)),
            Some(req) => {
                &&& r is Ok <==> pipeline_spec(data@, req) is Some
                &&& r matches Ok((v, w, h, s)) ==> pipeline_spec(data@, req) == Some((v@, w, h))
                    && s@ == pipeline_summary(data@)
                &&& req.output_format == OutputFormat::Webp ==> r == Err::<(Vec<u8>, u32, u32, String), CompressError>(
                    CompressError::NotImplemented,
                )
                &&& req.output_format == OutputFormat::Png ==> (r matches Ok((v, w, h, s)) ==> indexed_png_header(v@, w, h))
                &&& req.output_format == OutputFormat::Jpeg ==> (r matches Ok((v, w, h, s)) ==> starts_as_jpeg(v@))
            },
        },
{
    if quality < 1 || quality > 100 {
        return Err(CompressError::InvalidQuality);
    }
    let fmt = OutputFormat::from_name(format);
    let alg = CompressionAlgorithm::from_name(algorithm);
    match fmt {
        Some(f) => {
            let request = CompressionRequest { quality, output_format: f, algorithm: alg, bounds };
            compress_request(data, &request)
        },
        None => {
            // the state machine reports a bad target only at dispatch
            let _ = detect_image_type(data)?;
            let _ = decode_image(data)?;
            Err(CompressError::UnsupportedOutputFormat(String::from_str(format)))
        },
    }
}

/// The placeholder of the module check: a fixed greeting.
pub fn test_compression_module() -> (r: &'static str)
    ensures
        r@ == "simple module is working"@,
{
    "simple module is working"
}

} // verus!
