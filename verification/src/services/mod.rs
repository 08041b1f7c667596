pub mod codec;
pub mod image_processor;
