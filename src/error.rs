use vstd::prelude::*;
use crate::convert::image_error_text;
use crate::text::{decimal, decimal_string};

verus! {

/// The ways a compression request can fail.
#[derive(Debug, Clone, PartialEq, Eq)]
pub enum CompressError {
    /// The input is shorter than a signature or carries neither the PNG nor the JPEG one.
    UnrecognizedFormat,
    /// The bytes are not a valid image of the sniffed format.
    DecodeError(String),
    /// No palette could be built, even after the relaxed retry.
    QuantizationFailure(String),
    /// An encoder backend refused the pixel data.
    EncodeError(String),
    /// The requested output format is not one this pipeline knows.
    UnsupportedOutputFormat(String),
    /// WebP output is recognised but not available.
    NotImplemented,
    /// The requested quality is outside 1..=100.
    InvalidQuality,
}

impl CompressError {
    /// The human-readable text of the failure.
    pub fn message(&self) -> (r: String)
        ensures
            r@ == match self {
                CompressError::UnrecognizedFormat => "Unrecognized image format"@,
                CompressError::DecodeError(s) => "Failed to decode image: "@ + s@,
                CompressError::QuantizationFailure(s) => "Failed to quantize PNG: "@ + s@,
                CompressError::EncodeError(s) => "Failed to encode image: "@ + s@,
                CompressError::UnsupportedOutputFormat(s) => "Unsupported format: "@ + s@,
                CompressError::NotImplemented => "WebP compression not yet implemented"@,
                CompressError::InvalidQuality => "Quality must be between 1 and 100"@,
            },
    {
        match self {
            CompressError::UnrecognizedFormat => String::from_str("Unrecognized image format"),
            CompressError::DecodeError(s) => String::from_str("Failed to decode image: ").concat(s.as_str()),
            CompressError::QuantizationFailure(s) => String::from_str("Failed to quantize PNG: ").concat(s.as_str()),
            CompressError::EncodeError(s) => String::from_str("Failed to encode image: ").concat(s.as_str()),
            CompressError::UnsupportedOutputFormat(s) => String::from_str("Unsupported format: ").concat(s.as_str()),
            CompressError::NotImplemented => String::from_str("WebP compression not yet implemented"),
            CompressError::InvalidQuality => String::from_str("Quality must be between 1 and 100"),
        }
    }
}

#[verifier::external_type_specification]
#[verifier::external_body]
pub struct ExIoError(std::io::Error);

/// Relies on `Display` of `std::io::Error` for its diagnostic.
#[verifier::external_body]
fn io_error_text(e: &std::io::Error) -> (r: String) {
    e.to_string()
}

/// The failures the server reports to its clients.
#[derive(Debug)]
pub enum ImageServerError {
    UnsupportedFormat,
    ProcessingError(String),
    IoError(std::io::Error),
    ImageError(image::ImageError),
    CompressionError(String),
    InvalidParameters(String),
    FileTooLarge { max_size: usize },
}

/// The HTTP status each failure is answered with.
pub open spec fn status_of(e: ImageServerError) -> u16 {
    match e {
        ImageServerError::UnsupportedFormat => 415,
        ImageServerError::InvalidParameters(_) => 400,
        ImageServerError::FileTooLarge { .. } => 413,
        _ => 500,
    }
}

/// The machine-readable code each failure is answered with.
pub open spec fn code_of(e: ImageServerError) -> Seq<char> {
    match e {
        ImageServerError::UnsupportedFormat => "unsupported_format"@,
        ImageServerError::ProcessingError(_) => "processing_error"@,
        ImageServerError::InvalidParameters(_) => "invalid_parameters"@,
        ImageServerError::FileTooLarge { .. } => "file_too_large"@,
        _ => "internal_error"@,
    }
}

/// Whether the failure's own text is shown to the client; the others get a
/// generic text.
pub open spec fn is_public(e: ImageServerError) -> bool {
    !(e is IoError || e is ImageError || e is CompressionError)
}

/// The text of a failure whose text is shown to the client.
pub open spec fn public_text(e: ImageServerError) -> Seq<char> {
    match e {
        ImageServerError::UnsupportedFormat => "Unsupported image format"@,
        ImageServerError::ProcessingError(s) => "Image processing error: "@ + s@,
        ImageServerError::InvalidParameters(s) => "Invalid parameters: "@ + s@,
        ImageServerError::FileTooLarge { max_size } => "File too large: maximum size is "@ + decimal(
            max_size as nat,
        ) + " bytes"@,
        _ => Seq::empty(),
    }
}

impl ImageServerError {
    pub fn status_code(&self) -> (r: u16)
        ensures
            r == status_of(*self),
    {
        match self {
            ImageServerError::UnsupportedFormat => 415,
            ImageServerError::InvalidParameters(_) => 400,
            ImageServerError::FileTooLarge { .. } => 413,
            _ => 500,
        }
    }

    pub fn error_code(&self) -> (r: &'static str)
        ensures
            r@ == code_of(*self),
    {
        match self {
            ImageServerError::UnsupportedFormat => "unsupported_format",
            ImageServerError::ProcessingError(_) => "processing_error",
            ImageServerError::InvalidParameters(_) => "invalid_parameters",
            ImageServerError::FileTooLarge { .. } => "file_too_large",
            _ => "internal_error",
        }
    }

    /// The human-readable text of the failure.
    pub fn message(&self) -> (r: String)
        ensures
            is_public(*self) ==> r@ == public_text(*self),
            self matches ImageServerError::CompressionError(s) ==> r@ == "Compression error: "@ + s@,
    {
        match self {
            ImageServerError::UnsupportedFormat => String::from_str("Unsupported image format"),
            ImageServerError::ProcessingError(s) => String::from_str("Image processing error: ").concat(s.as_str()),
            ImageServerError::IoError(e) => String::from_str("IO error: ").concat(io_error_text(e).as_str()),
            ImageServerError::ImageError(e) => String::from_str("Image decoding error: ").concat(
                image_error_text(e).as_str(),
            ),
            ImageServerError::CompressionError(s) => String::from_str("Compression error: ").concat(s.as_str()),
            ImageServerError::InvalidParameters(s) => String::from_str("Invalid parameters: ").concat(s.as_str()),
            ImageServerError::FileTooLarge { max_size } => {
                let mut t = String::from_str("File too large: maximum size is ");
                let n = decimal_string(*max_size as u64);
                t.append(n.as_str());
                t.append(" bytes");
                t
            },
        }
    }

    /// The text sent to the client: the failure's own for client-side
    /// failures, a generic one for internal failures.
    pub fn response_message(&self) -> (r: String)
        ensures
            !is_public(*self) ==> r@ == "An internal error occurred"@,
            is_public(*self) ==> r@ == public_text(*self),
    {
        match self {
            ImageServerError::IoError(_) | ImageServerError::ImageError(_) | ImageServerError::CompressionError(_) => {
                String::from_str("An internal error occurred")
            },
            _ => self.message(),
        }
    }
}

} // verus!
