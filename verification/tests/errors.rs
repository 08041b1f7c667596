use image_resizing_lambda::error::ImageResizeError;

#[test]
fn error_messages() {
    assert_eq!(ImageResizeError::S3Error("x".to_string()).message(), "S3 error: x");
    assert_eq!(
        ImageResizeError::ImageError("bad".to_string()).message(),
        "Image processing error: bad"
    );
    assert_eq!(
        ImageResizeError::ConfigError("DEST_BUCKET not set".to_string()).message(),
        "Configuration error: DEST_BUCKET not set"
    );
    assert_eq!(
        ImageResizeError::SizeExceeded { attempts: 10, final_size: 6000000 }.message(),
        "Image exceeds maximum size after 10 resize attempts (final size: 6000000 bytes)"
    );
    assert_eq!(
        ImageResizeError::InvalidImage.message(),
        "Invalid image format or corrupted data"
    );
    assert_eq!(ImageResizeError::IoError("eof".to_string()).message(), "IO error: eof");
}
