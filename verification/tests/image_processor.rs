use image_resizing_lambda::error::ImageResizeError;
use image_resizing_lambda::services::image_processor::{
    calculate_dimensions, ImageProcessor, ResizeSettings, MAX_ATTEMPTS,
};
use std::io::Cursor;

fn png_bytes(width: u32, height: u32) -> Vec<u8> {
    let img = image::RgbImage::from_fn(width, height, |x, y| {
        image::Rgb([(x % 256) as u8, (y % 256) as u8, ((x * 7 + y * 13) % 256) as u8])
    });
    let mut buffer = Cursor::new(Vec::new());
    image::DynamicImage::ImageRgb8(img)
        .write_to(&mut buffer, image::ImageFormat::Png)
        .unwrap();
    buffer.into_inner()
}

#[test]
fn test_calculate_dimensions_preserves_aspect_ratio() {
    let (w, h) = calculate_dimensions(1920, 1080, 400, 400);
    assert_eq!(w, 400);
    assert_eq!(h, 225); // 400 * (1080/1920) = 225

    let (w, h) = calculate_dimensions(1080, 1920, 400, 400);
    assert_eq!(w, 225);
    assert_eq!(h, 400);
}

#[test]
fn test_calculate_dimensions_no_upscale() {
    let (w, h) = calculate_dimensions(100, 100, 400, 400);
    assert_eq!(w, 100);
    assert_eq!(h, 100);
}

#[test]
fn calculate_dimensions_rounds_down() {
    // 1000 x 333 into 300 x 300: the factor is 3/10, and 333 * 3 / 10 = 99.9.
    assert_eq!(calculate_dimensions(1000, 333, 300, 300), (300, 99));
}

#[test]
fn calculate_dimensions_height_decides() {
    assert_eq!(calculate_dimensions(500, 1000, 400, 400), (200, 400));
}

#[test]
fn calculate_dimensions_zero_sides() {
    assert_eq!(calculate_dimensions(0, 500, 100, 100), (0, 100));
    assert_eq!(calculate_dimensions(500, 0, 100, 100), (100, 0));
    assert_eq!(calculate_dimensions(0, 0, 0, 0), (0, 0));
}

#[test]
fn calculate_dimensions_is_idempotent() {
    let (w, h) = calculate_dimensions(4000, 3000, 1920, 1080);
    assert_eq!((w, h), (1440, 1080));
    assert_eq!(calculate_dimensions(w, h, 1920, 1080), (w, h));
}

#[test]
fn calculate_dimensions_keeps_aspect_ratio_within_a_pixel() {
    let (ow, oh) = (3001u64, 1999u64);
    let (w, h) = calculate_dimensions(3001, 1999, 640, 640);
    let (w, h) = (w as u64, h as u64);
    assert!(w * oh <= ow * (h + 1));
    assert!(h * ow <= oh * (w + 1));
    assert!(w <= 640 && h <= 640);
}

#[test]
fn resize_settings_schedule() {
    let initial = ResizeSettings::initial(800, 600, 400, 4000);
    assert_eq!(initial, ResizeSettings { width: 400, height: 600, quality: 85 });
    let mut s = initial;
    for _ in 0..5 {
        s = s.after_oversized(1, 10).unwrap();
    }
    assert_eq!(s, ResizeSettings { width: 400, height: 600, quality: 60 });
    let s = s.after_oversized(6, 10).unwrap();
    assert_eq!(s, ResizeSettings { width: 360, height: 540, quality: 60 });
}

#[test]
fn resize_settings_give_up_below_minimum() {
    let s = ResizeSettings { width: 110, height: 500, quality: 60 };
    assert_eq!(
        s.after_oversized(7, 12345),
        Err(ImageResizeError::SizeExceeded { attempts: 7, final_size: 12345 })
    );
}

#[test]
fn process_image_passes_small_images_through() {
    let processor = ImageProcessor::new(1920, 1080, 100);
    let bytes = vec![1u8, 2, 3];
    let r = processor.process_image(bytes.clone(), 99).unwrap();
    assert_eq!(r.data, bytes);
    assert_eq!((r.width, r.height, r.original_width, r.original_height), (0, 0, 0, 0));
    assert!(!r.was_resized);
}

#[test]
fn process_image_passes_small_images_through_with_their_size() {
    let bytes = png_bytes(30, 20);
    let processor = ImageProcessor::new(10, 10, 1_000_000);
    let r = processor.process_image(bytes.clone(), 100).unwrap();
    assert_eq!(r.data, bytes);
    assert_eq!((r.width, r.height, r.original_width, r.original_height), (30, 20, 30, 20));
    assert!(!r.was_resized);
}

#[test]
fn calculate_dimensions_grows_with_the_box() {
    let small = calculate_dimensions(1875, 4843, 3000, 300);
    let large = calculate_dimensions(1875, 4843, 3872, 419);
    assert!(small.0 <= large.0 && small.1 <= large.1);
    assert_eq!(large, (162, 419));
}

#[test]
fn process_image_rejects_undecodable_bytes() {
    let processor = ImageProcessor::new(1920, 1080, 100);
    let res = processor.process_image(vec![0u8; 64], 5000);
    assert!(matches!(res, Err(ImageResizeError::InvalidImage)));
}

#[test]
fn process_image_resizes_into_the_box_under_the_limit() {
    let bytes = png_bytes(800, 600);
    let processor = ImageProcessor::new(400, 400, 1_000_000);
    let r = processor.process_image(bytes, 2_000_000).unwrap();
    assert!(r.was_resized);
    assert_eq!((r.original_width, r.original_height), (800, 600));
    assert_eq!((r.width, r.height), (400, 300));
    assert!((r.data.len() as u64) < 1_000_000);
    let decoded = image::load_from_memory(&r.data).unwrap();
    assert_eq!(image::guess_format(&r.data).unwrap(), image::ImageFormat::Jpeg);
    assert_eq!((decoded.width(), decoded.height()), (400, 300));
}

#[test]
fn process_image_gives_up_after_all_attempts() {
    let bytes = png_bytes(800, 600);
    let processor = ImageProcessor::new(400, 400, 10);
    let res = processor.process_image(bytes, 777);
    assert_eq!(
        res.err(),
        Some(ImageResizeError::SizeExceeded { attempts: MAX_ATTEMPTS, final_size: 777 })
    );
}

#[test]
fn process_image_gives_up_when_the_box_gets_too_small() {
    let bytes = png_bytes(300, 300);
    let processor = ImageProcessor::new(120, 120, 10);
    match processor.process_image(bytes, 5000) {
        Err(ImageResizeError::SizeExceeded { attempts, final_size }) => {
            // Six attempts at 120 x 120, then 108 x 108, then the box would be 97 x 97.
            assert_eq!(attempts, 7);
            assert!(final_size >= 10);
        }
        _ => panic!("expected a refusal"),
    }
}

#[test]
fn process_image_reports_encoder_failures() {
    // JPEG cannot hold an image wider than 65535 pixels.
    let bytes = png_bytes(70000, 1);
    let processor = ImageProcessor::new(100000, 100000, 10);
    match processor.process_image(bytes, 5000) {
        Err(ImageResizeError::ImageError(m)) => {
            assert!(m.starts_with("Failed to encode image: "), "{m}")
        }
        _ => panic!("expected an encoding error"),
    }
}
