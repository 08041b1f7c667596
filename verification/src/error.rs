//! The library's error type and its messages.

use vstd::prelude::*;
use vstd::string::*;
use crate::decimal::{decimal_digits, format_decimal};

verus! {

/// Everything that can go wrong while handling an image.
#[derive(Debug, PartialEq, Eq)]
pub enum ImageResizeError {
    S3Error(String),
    ImageError(String),
    ConfigError(String),
    SizeExceeded { attempts: u32, final_size: u64 },
    InvalidImage,
    /// An I/O failure, with the text of the underlying error.
    IoError(String),
}

/// The text that describes an error to a human.
pub open spec fn error_message(e: ImageResizeError) -> Seq<char> {
    match e {
        ImageResizeError::S3Error(m) => "S3 error: "@ + m@,
        ImageResizeError::ImageError(m) => "Image processing error: "@ + m@,
        ImageResizeError::ConfigError(m) => "Configuration error: "@ + m@,
        ImageResizeError::SizeExceeded { attempts, final_size } =>
            "Image exceeds maximum size after "@ + decimal_digits(attempts as nat)
                + " resize attempts (final size: "@ + decimal_digits(final_size as nat) + " bytes)"@,
        ImageResizeError::InvalidImage => "Invalid image format or corrupted data"@,
        ImageResizeError::IoError(m) => "IO error: "@ + m@,
    }
}

/// `prefix` followed by `tail`.
fn prefixed(prefix: &str, tail: &String) -> (s: String)
    ensures
        s@ == prefix@ + tail@,
{
    let mut s = String::from_str(prefix);
    s.append(tail.as_str());
    s
}

impl ImageResizeError {
    /// The human-readable message of the error.
    pub fn message(&self) -> (s: String)
        ensures
            s@ == error_message(*self),
    {
        match self {
            ImageResizeError::S3Error(m) => prefixed("S3 error: ", m),
            ImageResizeError::ImageError(m) => prefixed("Image processing error: ", m),
            ImageResizeError::ConfigError(m) => prefixed("Configuration error: ", m),
            ImageResizeError::SizeExceeded { attempts, final_size } => {
                let mut s = String::from_str("Image exceeds maximum size after ");
                let a = format_decimal(*attempts as u64);
                s.append(a.as_str());
                s.append(" resize attempts (final size: ");
                let f = format_decimal(*final_size);
                s.append(f.as_str());
                s.append(" bytes)");
                s
            },
            ImageResizeError::InvalidImage => String::from_str("Invalid image format or corrupted data"),
            ImageResizeError::IoError(m) => prefixed("IO error: ", m),
        }
    }
}

} // verus!
