use img_server_rs::error::ImageServerError;
use img_server_rs::handlers::{
    determine_output_content_type, generate_output_filename, new_output_filename, next_upload_size,
    resolve_request_params, text_field_fits, CompressionQuery, FileUpload,
};

#[test]
fn file_upload_starts_empty() {
    let u = FileUpload::new();
    assert!(u.data.is_empty());
    assert!(u.filename.is_none());
    assert!(u.content_type.is_none());
}

#[test]
fn content_types() {
    assert_eq!(determine_output_content_type("JPEG"), "image/jpeg");
    assert_eq!(determine_output_content_type("jpg"), "image/jpeg");
    assert_eq!(determine_output_content_type("Png"), "image/png");
    assert_eq!(determine_output_content_type("webp"), "image/webp");
    assert_eq!(determine_output_content_type("gif"), "application/octet-stream");
}

#[test]
fn output_filenames() {
    let name = Some("holiday.photo.PNG".to_string());
    assert_eq!(generate_output_filename(&name, "JPG", "id"), "holiday.photo_compressed.jpg");
    assert_eq!(generate_output_filename(&None, "png", "abc"), "compressed_abc_compressed.png");
    assert_eq!(generate_output_filename(&Some("dir/a.b".to_string()), "tiff", "x"), "a_compressed.bin");
    let fresh = new_output_filename(&None, "webp");
    assert!(fresh.starts_with("compressed_"));
    assert!(fresh.ends_with("_compressed.webp"));
    assert_eq!(fresh.len(), "compressed_".len() + 36 + "_compressed.webp".len());
}

#[test]
fn request_params_resolution() {
    let query = CompressionQuery { quality: None, format: None, algorithm: None };
    let p = resolve_request_params(&query, &Some("Cat.PNG".to_string()), &None, &None, "mozjpeg");
    assert_eq!(p.format, "png");
    assert_eq!(p.quality, 85);
    assert_eq!(p.algorithm, "mozjpeg");

    let p = resolve_request_params(&query, &Some("cat.jpg".to_string()), &Some("150".to_string()),
        &Some("jpeg-encoder".to_string()), "mozjpeg");
    assert_eq!(p.format, "jpeg");
    assert_eq!(p.quality, 100);
    assert_eq!(p.algorithm, "jpeg-encoder");

    let query = CompressionQuery { quality: Some(0), format: Some("webp".to_string()), algorithm: Some("x".to_string()) };
    let p = resolve_request_params(&query, &None, &Some("50".to_string()), &None, "mozjpeg");
    assert_eq!(p.format, "webp");
    assert_eq!(p.quality, 1);
    assert_eq!(p.algorithm, "x");

    let query = CompressionQuery { quality: None, format: None, algorithm: None };
    let p = resolve_request_params(&query, &None, &Some("abc".to_string()), &None, "png-quantized");
    assert_eq!(p.format, "jpeg");
    assert_eq!(p.quality, 85);
    assert_eq!(p.algorithm, "png-quantized");
}

#[test]
fn upload_limits() {
    assert_eq!(next_upload_size(10, 5, 15), Some(15));
    assert_eq!(next_upload_size(10, 6, 15), None);
    assert_eq!(next_upload_size(usize::MAX, 1, usize::MAX), None);
    assert!(text_field_fits(1024));
    assert!(!text_field_fits(1025));
}

#[test]
fn server_error_responses() {
    let e = ImageServerError::FileTooLarge { max_size: 1024 };
    assert_eq!(e.status_code(), 413);
    assert_eq!(e.error_code(), "file_too_large");
    assert_eq!(e.message(), "File too large: maximum size is 1024 bytes");
    let e = ImageServerError::InvalidParameters("Text field too long".to_string());
    assert_eq!(e.status_code(), 400);
    assert_eq!(e.response_message(), "Invalid parameters: Text field too long");
    let e = ImageServerError::UnsupportedFormat;
    assert_eq!(e.status_code(), 415);
    let e = ImageServerError::CompressionError("x".to_string());
    assert_eq!(e.status_code(), 500);
    assert_eq!(e.error_code(), "internal_error");
    assert_eq!(e.response_message(), "An internal error occurred");
    let e = ImageServerError::IoError(std::io::Error::new(std::io::ErrorKind::Other, "disk"));
    assert_eq!(e.message(), "IO error: disk");
}
