use vstd::prelude::*;
use crate::error::CompressError;

verus! {

/// The container formats the pipeline accepts as input.
#[derive(Debug, Clone, Copy, PartialEq, Eq, Structural)]
pub enum ImageType {
    PNG,
    JPEG,
}

/// The eight-byte PNG file signature.
pub open spec fn png_signature() -> Seq<u8> {
    seq![0x89u8, 0x50u8, 0x4Eu8, 0x47u8, 0x0Du8, 0x0Au8, 0x1Au8, 0x0Au8]
}

/// The JPEG start-of-image marker followed by the first byte of the next marker.
pub open spec fn jpeg_marker() -> Seq<u8> {
    seq![0xFFu8, 0xD8u8, 0xFFu8]
}

pub open spec fn starts_with(data: Seq<u8>, prefix: Seq<u8>) -> bool {
    data.len() >= prefix.len() && data.subrange(0, prefix.len() as int) == prefix
}

/// A buffer is recognised as PNG when it is long enough and opens with the PNG signature.
pub open spec fn is_png(data: Seq<u8>) -> bool {
    data.len() >= 8 && starts_with(data, png_signature())
}

/// A buffer is recognised as JPEG when it is long enough, is not PNG, and opens
/// with the start-of-image marker.
pub open spec fn is_jpeg(data: Seq<u8>) -> bool {
    data.len() >= 8 && !is_png(data) && starts_with(data, jpeg_marker())
}

/// What sniffing yields for a buffer.
pub open spec fn sniff_spec(data: Seq<u8>) -> Result<ImageType, CompressError> {
    if is_png(data) {
        Ok(ImageType::PNG)
    } else if is_jpeg(data) {
        Ok(ImageType::JPEG)
    } else {
        Err(CompressError::UnrecognizedFormat)
    }
}

/// Classifies a buffer by its magic header.
pub fn detect_image_type(data: &[u8]) -> (r: Result<ImageType, CompressError>)
    ensures
        r == sniff_spec(data@),
{
    if data.len() < 8 {
        return Err(CompressError::UnrecognizedFormat);
    }
    if data[0] == 0x89 && data[1] == 0x50 && data[2] == 0x4E && data[3] == 0x47 && data[4] == 0x0D
        && data[5] == 0x0A && data[6] == 0x1A && data[7] == 0x0A {
        assert(data@.subrange(0, 8) =~= png_signature());
        return Ok(ImageType::PNG);
    }
    assert(!is_png(data@)) by {
        if starts_with(data@, png_signature()) {
            assert(data@.subrange(0, 8)[0] == data@[0]);
            assert(data@.subrange(0, 8)[1] == data@[1]);
            assert(data@.subrange(0, 8)[2] == data@[2]);
            assert(data@.subrange(0, 8)[3] == data@[3]);
            assert(data@.subrange(0, 8)[4] == data@[4]);
            assert(data@.subrange(0, 8)[5] == data@[5]);
            assert(data@.subrange(0, 8)[6] == data@[6]);
            assert(data@.subrange(0, 8)[7] == data@[7]);
        }
    }
    if data[0] == 0xFF && data[1] == 0xD8 && data[2] == 0xFF {
        assert(data@.subrange(0, 3) =~= jpeg_marker());
        return Ok(ImageType::JPEG);
    }
    assert(!starts_with(data@, jpeg_marker())) by {
        if starts_with(data@, jpeg_marker()) {
            assert(data@.subrange(0, 3)[0] == data@[0]);
            assert(data@.subrange(0, 3)[1] == data@[1]);
            assert(data@.subrange(0, 3)[2] == data@[2]);
        }
    }
    Err(CompressError::UnrecognizedFormat)
}

} // verus!
