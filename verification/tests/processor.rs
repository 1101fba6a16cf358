//! Tests of the image processor: determinism, exact output dimensions, and
//! its failure modes.

use tcg_fetch::images::{process_image, CorruptionReason, ProcessError};

fn jpeg_bytes(width: u32, height: u32) -> Vec<u8> {
    let img = image::RgbImage::from_fn(width, height, |x, y| {
        image::Rgb([(x % 256) as u8, (y % 256) as u8, ((x + y) % 256) as u8])
    });
    let mut out: Vec<u8> = Vec::new();
    image::DynamicImage::ImageRgb8(img)
        .write_to(&mut std::io::Cursor::new(&mut out), image::ImageFormat::Jpeg)
        .expect("encoding a test image must succeed");
    out
}

#[test]
fn processing_twice_is_byte_identical() {
    let source = jpeg_bytes(500, 700);
    let first = process_image(&source, 200, 280).expect("processing a valid image succeeds");
    let second = process_image(&source, 200, 280).expect("processing a valid image succeeds");
    assert_eq!(first, second);
}

#[test]
fn processed_output_has_exact_target_dimensions() {
    let source = jpeg_bytes(500, 700);
    let out = process_image(&source, 200, 280).expect("processing a valid image succeeds");
    let decoded = image::load_from_memory(&out).expect("the output must decode");
    assert_eq!(image::GenericImageView::dimensions(&decoded), (200, 280));
}

#[test]
fn processing_stretches_rather_than_letterboxes() {
    let source = jpeg_bytes(300, 300);
    let out = process_image(&source, 120, 480).expect("processing a valid image succeeds");
    let decoded = image::load_from_memory(&out).expect("the output must decode");
    assert_eq!(image::GenericImageView::dimensions(&decoded), (120, 480));
}

#[test]
fn processing_garbage_fails_to_transcode() {
    let garbage: Vec<u8> = (0..300u32).map(|i| (i * 7 % 256) as u8).collect();
    assert_eq!(process_image(&garbage, 200, 280), Err(ProcessError::TranscodeFailed));
}

#[test]
fn undersized_target_is_rejected_after_reencoding() {
    let source = jpeg_bytes(500, 700);
    assert_eq!(
        process_image(&source, 5, 5),
        Err(ProcessError::OutputRejected(CorruptionReason::TooSmallDimensions))
    );
}
