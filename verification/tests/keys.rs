use image_resizing_lambda::keys::destination_key;

#[test]
fn destination_key_strips_source_prefix() {
    assert_eq!(
        destination_key("original/post-1/img.jpg", "original/", "resized/"),
        "resized/post-1/img.jpg"
    );
}

#[test]
fn destination_key_keeps_other_keys() {
    assert_eq!(destination_key("photo.jpg", "original/", "resized/"), "resized/photo.jpg");
    assert_eq!(destination_key("photo.jpg", "", "resized/"), "resized/photo.jpg");
}

#[test]
fn destination_key_drops_leading_slashes() {
    assert_eq!(destination_key("original///a/b.jpg", "original", "resized/"), "resized/a/b.jpg");
    assert_eq!(destination_key("//x.png", "", "r/"), "r/x.png");
    assert_eq!(destination_key("///", "", "r/"), "r/");
}

#[test]
fn destination_key_with_unicode() {
    assert_eq!(destination_key("orig/é/ß.jpg", "orig/", "out/"), "out/é/ß.jpg");
}
