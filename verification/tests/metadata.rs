use image_resizing_lambda::clients::s3::object_size;
use image_resizing_lambda::models::metadata::{ImageMetadata, ItemValue};

#[test]
fn metadata_item_lists_all_attributes() {
    let m = ImageMetadata {
        object_key: "photo.jpg".to_string(),
        resized_key: "resized/photo.jpg".to_string(),
        original_size: 6000000,
        final_size: 400000,
        original_width: 4000,
        original_height: 3000,
        final_width: 1440,
        final_height: 1080,
        was_resized: true,
        timestamp: "2024-01-01T00:00:00+00:00".to_string(),
    };
    let item = m.into_item();
    let rendered: Vec<(String, String)> = item
        .into_iter()
        .map(|(k, v)| {
            let v = match v {
                ItemValue::S(s) => format!("S:{s}"),
                ItemValue::N(n) => format!("N:{n}"),
                ItemValue::Bool(b) => format!("B:{b}"),
            };
            (k, v)
        })
        .collect();
    let expected = [
        ("object_key", "S:photo.jpg"),
        ("timestamp", "S:2024-01-01T00:00:00+00:00"),
        ("resized_key", "S:resized/photo.jpg"),
        ("original_size", "N:6000000"),
        ("final_size", "N:400000"),
        ("original_width", "N:4000"),
        ("original_height", "N:3000"),
        ("final_width", "N:1440"),
        ("final_height", "N:1080"),
        ("was_resized", "B:true"),
    ];
    assert_eq!(rendered.len(), expected.len());
    for ((k, v), (ek, ev)) in rendered.iter().zip(expected.iter()) {
        assert_eq!(k, ek);
        assert_eq!(v, ev);
    }
}

#[test]
fn object_size_from_content_length() {
    assert_eq!(object_size(None), 0);
    assert_eq!(object_size(Some(5242880)), 5242880);
    assert_eq!(object_size(Some(-1)), u64::MAX);
}
