use image_resizing_lambda::error::ImageResizeError;
use image_resizing_lambda::models::config::{Config, ConfigSource, MAX_FILE_SIZE_BYTES};

fn source() -> ConfigSource {
    ConfigSource {
        source_bucket: None,
        dest_bucket: None,
        resized_prefix: None,
        source_prefix: None,
        max_width: None,
        max_height: None,
        max_file_size: None,
        dynamodb_table: None,
    }
}

#[test]
fn config_defaults() {
    let mut s = source();
    s.source_bucket = Some("in".to_string());
    let c = Config::from_source(s).unwrap();
    assert_eq!(c.dest_bucket, "in");
    assert_eq!(c.resized_prefix, "resized/");
    assert_eq!(c.source_prefix, "");
    assert_eq!((c.max_width, c.max_height), (1920, 1080));
    assert_eq!(c.max_file_size, MAX_FILE_SIZE_BYTES);
    assert_eq!(MAX_FILE_SIZE_BYTES, 5 * 1024 * 1024);
    assert_eq!(c.dynamodb_table, None);
}

#[test]
fn config_dest_bucket_defaults_to_source_bucket() {
    let mut s = source();
    s.source_bucket = Some("in".to_string());
    assert_eq!(Config::from_source(s).unwrap().dest_bucket, "in");
    let mut s = source();
    s.source_bucket = Some("in".to_string());
    s.dest_bucket = Some("out".to_string());
    assert_eq!(Config::from_source(s).unwrap().dest_bucket, "out");
}

#[test]
fn config_requires_a_source_bucket() {
    match Config::from_source(source()) {
        Err(ImageResizeError::ConfigError(m)) => assert_eq!(m, "SOURCE_BUCKET not set"),
        _ => panic!("expected a configuration error"),
    }
    let mut s = source();
    s.dest_bucket = Some("out".to_string());
    match Config::from_source(s) {
        Err(ImageResizeError::ConfigError(m)) => assert_eq!(m, "SOURCE_BUCKET not set"),
        _ => panic!("expected a configuration error"),
    }
}

#[test]
fn config_reads_settings_and_falls_back_on_bad_numbers() {
    let mut s = source();
    s.source_bucket = Some("in".to_string());
    s.dest_bucket = Some("out".to_string());
    s.resized_prefix = Some("small/".to_string());
    s.source_prefix = Some("original/".to_string());
    s.max_width = Some("800".to_string());
    s.max_height = Some("not a number".to_string());
    s.max_file_size = Some("4294967296".to_string());
    s.dynamodb_table = Some("image-metadata".to_string());
    let c = Config::from_source(s).unwrap();
    assert_eq!(c.resized_prefix, "small/");
    assert_eq!(c.source_prefix, "original/");
    assert_eq!((c.max_width, c.max_height), (800, 1080));
    assert_eq!(c.max_file_size, 4294967296);
    assert_eq!(c.dynamodb_table, Some("image-metadata".to_string()));
}

#[test]
fn config_width_over_u32_takes_default() {
    let mut s = source();
    s.source_bucket = Some("in".to_string());
    s.max_width = Some("4294967296".to_string());
    assert_eq!(Config::from_source(s).unwrap().max_width, 1920);
}
