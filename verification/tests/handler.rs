use image_resizing_lambda::error::ImageResizeError;
use image_resizing_lambda::handler::{EventHandler, HandlerAction, HandlerEvent, S3Record};
use image_resizing_lambda::models::config::Config;

fn config(table: Option<&str>) -> Config {
    Config {
        dest_bucket: "dest".to_string(),
        resized_prefix: "resized/".to_string(),
        source_prefix: "original/".to_string(),
        max_width: 1920,
        max_height: 1080,
        max_file_size: 1000,
        dynamodb_table: table.map(|t| t.to_string()),
    }
}

fn record(bucket: Option<&str>, key: Option<&str>) -> S3Record {
    S3Record {
        bucket_name: bucket.map(|b| b.to_string()),
        object_key: key.map(|k| k.to_string()),
    }
}

fn step(h: &mut EventHandler, e: HandlerEvent) -> HandlerAction {
    assert!(h.can_take(&e));
    h.step(e)
}

#[test]
fn handler_runs_each_record_with_metadata() {
    let mut h = EventHandler::new(
        config(Some("image-metadata")),
        vec![record(Some("src"), Some("original/post%201/a.jpg")), record(Some("src"), Some("b.jpg"))],
    );
    match step(&mut h, HandlerEvent::Started) {
        HandlerAction::FetchObject { bucket, key } => {
            assert_eq!(bucket, "src");
            assert_eq!(key, "original/post 1/a.jpg");
        }
        _ => panic!("expected a fetch"),
    }
    assert!(!h.can_take(&HandlerEvent::ObjectStored));
    match step(&mut h, HandlerEvent::ObjectFetched { data: vec![7, 7, 7], size: 3 }) {
        HandlerAction::StoreObject { bucket, key, data, content_type } => {
            assert_eq!(bucket, "dest");
            assert_eq!(key, "resized/post 1/a.jpg");
            assert_eq!(data, vec![7, 7, 7]);
            assert_eq!(content_type, "image/jpeg");
        }
        _ => panic!("expected a store"),
    }
    match step(&mut h, HandlerEvent::ObjectStored) {
        HandlerAction::SaveMetadata { table, metadata } => {
            assert_eq!(table, "image-metadata");
            assert_eq!(metadata.object_key, "original/post 1/a.jpg");
            assert_eq!(metadata.resized_key, "resized/post 1/a.jpg");
            assert_eq!((metadata.original_size, metadata.final_size), (3, 3));
            assert_eq!((metadata.final_width, metadata.final_height), (0, 0));
            assert!(!metadata.was_resized);
            assert!(!metadata.timestamp.is_empty());
        }
        _ => panic!("expected a metadata save"),
    }
    match step(&mut h, HandlerEvent::MetadataSaved) {
        HandlerAction::FetchObject { bucket, key } => {
            assert_eq!(bucket, "src");
            assert_eq!(key, "b.jpg");
        }
        _ => panic!("expected a fetch"),
    }
    match step(&mut h, HandlerEvent::ObjectFetched { data: vec![1], size: 1 }) {
        HandlerAction::StoreObject { key, .. } => assert_eq!(key, "resized/b.jpg"),
        _ => panic!("expected a store"),
    }
    assert!(matches!(step(&mut h, HandlerEvent::ObjectStored), HandlerAction::SaveMetadata { .. }));
    assert!(matches!(step(&mut h, HandlerEvent::MetadataSaved), HandlerAction::Finish(Ok(()))));
    assert!(h.is_finished());
    assert!(!h.can_take(&HandlerEvent::Started));
}

#[test]
fn handler_without_table_skips_metadata() {
    let mut h = EventHandler::new(config(None), vec![record(Some("src"), Some("a.jpg"))]);
    assert!(matches!(step(&mut h, HandlerEvent::Started), HandlerAction::FetchObject { .. }));
    assert!(matches!(
        step(&mut h, HandlerEvent::ObjectFetched { data: vec![1], size: 1 }),
        HandlerAction::StoreObject { .. }
    ));
    assert!(matches!(step(&mut h, HandlerEvent::ObjectStored), HandlerAction::Finish(Ok(()))));
}

#[test]
fn handler_with_no_records_finishes() {
    let mut h = EventHandler::new(config(None), vec![]);
    assert!(matches!(step(&mut h, HandlerEvent::Started), HandlerAction::Finish(Ok(()))));
}

#[test]
fn handler_missing_bucket_or_key() {
    let mut h = EventHandler::new(config(None), vec![record(None, Some("a.jpg"))]);
    match step(&mut h, HandlerEvent::Started) {
        HandlerAction::Finish(Err(ImageResizeError::S3Error(m))) => assert_eq!(m, "Missing bucket name"),
        _ => panic!("expected an error"),
    }
    let mut h = EventHandler::new(config(None), vec![record(Some("src"), None)]);
    match step(&mut h, HandlerEvent::Started) {
        HandlerAction::Finish(Err(ImageResizeError::S3Error(m))) => assert_eq!(m, "Missing object key"),
        _ => panic!("expected an error"),
    }
}

#[test]
fn handler_key_that_does_not_decode() {
    let mut h = EventHandler::new(config(None), vec![record(Some("src"), Some("bad%FF.jpg"))]);
    match step(&mut h, HandlerEvent::Started) {
        HandlerAction::Finish(Err(ImageResizeError::S3Error(m))) => {
            assert!(m.starts_with("Failed to decode key: "), "{m}");
            let expected = String::from_utf8(vec![b'b', b'a', b'd', 0xFF, b'.', b'j', b'p', b'g']).unwrap_err();
            assert_eq!(m, format!("Failed to decode key: {expected}"));
        }
        _ => panic!("expected an error"),
    }
}

#[test]
fn handler_failure_ends_the_run() {
    let mut h = EventHandler::new(config(None), vec![record(Some("src"), Some("a.jpg")), record(Some("src"), Some("b.jpg"))]);
    assert!(matches!(step(&mut h, HandlerEvent::Started), HandlerAction::FetchObject { .. }));
    let failure = ImageResizeError::S3Error("GetObject failed: boom".to_string());
    match step(&mut h, HandlerEvent::Failed(failure)) {
        HandlerAction::Finish(Err(e)) => {
            assert_eq!(e, ImageResizeError::S3Error("GetObject failed: boom".to_string()))
        }
        _ => panic!("expected the failure"),
    }
    assert!(h.is_finished());
}

#[test]
fn handler_processing_failure_ends_the_run() {
    let mut h = EventHandler::new(config(None), vec![record(Some("src"), Some("a.jpg"))]);
    assert!(matches!(step(&mut h, HandlerEvent::Started), HandlerAction::FetchObject { .. }));
    match step(&mut h, HandlerEvent::ObjectFetched { data: vec![0; 10], size: 5000 }) {
        HandlerAction::Finish(Err(ImageResizeError::InvalidImage)) => {}
        _ => panic!("expected an invalid image"),
    }
}

#[test]
fn handler_records_the_size_of_a_small_image() {
    let img = image::RgbImage::from_fn(40, 25, |x, y| image::Rgb([x as u8, y as u8, 0]));
    let mut buffer = std::io::Cursor::new(Vec::new());
    image::DynamicImage::ImageRgb8(img)
        .write_to(&mut buffer, image::ImageFormat::Png)
        .unwrap();
    let bytes = buffer.into_inner();
    let size = bytes.len() as u64;
    let mut h = EventHandler::new(config(Some("t")), vec![record(Some("src"), Some("a.png"))]);
    assert!(matches!(step(&mut h, HandlerEvent::Started), HandlerAction::FetchObject { .. }));
    assert!(size < 1000);
    match step(&mut h, HandlerEvent::ObjectFetched { data: bytes.clone(), size }) {
        HandlerAction::StoreObject { data, .. } => assert_eq!(data, bytes),
        _ => panic!("expected a store"),
    }
    match step(&mut h, HandlerEvent::ObjectStored) {
        HandlerAction::SaveMetadata { metadata, .. } => {
            assert_eq!((metadata.original_width, metadata.original_height), (40, 25));
            assert_eq!((metadata.final_width, metadata.final_height), (40, 25));
            assert!(!metadata.was_resized);
            assert_eq!(metadata.original_size, size);
        }
        _ => panic!("expected a metadata save"),
    }
}

#[test]
fn handler_metadata_at_uses_the_given_time() {
    let mut h = EventHandler::new(config(None), vec![record(Some("src"), Some("original/a.jpg"))]);
    assert!(matches!(step(&mut h, HandlerEvent::Started), HandlerAction::FetchObject { .. }));
    assert!(matches!(
        step(&mut h, HandlerEvent::ObjectFetched { data: vec![5, 6], size: 2 }),
        HandlerAction::StoreObject { .. }
    ));
    let m = h.metadata_at("2024-05-06T07:08:09+00:00".to_string());
    assert_eq!(m.timestamp, "2024-05-06T07:08:09+00:00");
    assert_eq!(m.object_key, "original/a.jpg");
    assert_eq!(m.resized_key, "resized/a.jpg");
    assert_eq!((m.original_size, m.final_size), (2, 2));
}
