//! Image validation: size bounds, magic-byte sniffing, data-URL handling.

use base64::Engine;
use screenshot_pipeline::image::{prepare_image_data, ValidationError};

fn encode(bytes: &[u8]) -> String {
    base64::engine::general_purpose::STANDARD.encode(bytes)
}

fn png_bytes(len: usize) -> Vec<u8> {
    let mut v = vec![0u8; len];
    v[0] = 0x89;
    v[1] = 0x50;
    v[2] = 0x4E;
    v[3] = 0x47;
    v
}

fn jpeg_bytes(len: usize) -> Vec<u8> {
    let mut v = vec![0u8; len];
    v[0] = 0xFF;
    v[1] = 0xD8;
    v[2] = 0xFF;
    v
}

#[test]
fn accepts_png_in_bounds() {
    let bytes = png_bytes(2000);
    let payload = encode(&bytes);
    let pi = prepare_image_data(&payload).expect("validation should succeed");
    assert_eq!(pi.media_type, "image/png");
    assert_eq!(pi.size_bytes, 2000);
    assert_eq!(pi.base64_data, payload);
}

#[test]
fn accepts_jpeg_in_bounds() {
    let bytes = jpeg_bytes(4096);
    let pi = prepare_image_data(&encode(&bytes)).expect("validation should succeed");
    assert_eq!(pi.media_type, "image/jpeg");
    assert_eq!(pi.size_bytes, 4096);
}

#[test]
fn unknown_header_defaults_to_png() {
    let bytes = vec![0u8; 1500];
    let pi = prepare_image_data(&encode(&bytes)).expect("validation should succeed");
    assert_eq!(pi.media_type, "image/png");
}

#[test]
fn accepts_boundary_sizes() {
    let small = png_bytes(1024);
    assert!(prepare_image_data(&encode(&small)).is_ok());
    let large = png_bytes(15 * 1024 * 1024);
    assert!(prepare_image_data(&encode(&large)).is_ok());
}

#[test]
fn rejects_too_small() {
    let bytes = png_bytes(1023);
    let err = prepare_image_data(&encode(&bytes)).unwrap_err();
    assert_eq!(err, ValidationError::TooSmall);
    assert_eq!(err.message(), "Image too small");
}

#[test]
fn rejects_too_large() {
    let bytes = png_bytes(15 * 1024 * 1024 + 1);
    let err = prepare_image_data(&encode(&bytes)).unwrap_err();
    assert_eq!(err, ValidationError::TooLarge);
    assert_eq!(err.message(), "Image too large (max 15MB)");
}

#[test]
fn rejects_invalid_base64() {
    let err = prepare_image_data("!!!not-base64!!!").unwrap_err();
    assert_eq!(err, ValidationError::InvalidBase64);
    assert_eq!(err.message(), "Invalid base64");
}

#[test]
fn data_url_and_raw_equivalent() {
    let bytes = jpeg_bytes(2048);
    let raw = encode(&bytes);
    let wrapped = format!("data:image/jpeg;base64,{}", raw);
    let a = prepare_image_data(&raw).expect("raw should validate");
    let b = prepare_image_data(&wrapped).expect("data URL should validate");
    assert_eq!(a.base64_data, b.base64_data);
    assert_eq!(a.media_type, b.media_type);
    assert_eq!(a.size_bytes, b.size_bytes);
}

#[test]
fn data_url_without_comma_rejected() {
    let err = prepare_image_data("data:image/png;base64").unwrap_err();
    assert_eq!(err, ValidationError::InvalidDataUrl);
    assert_eq!(err.message(), "Invalid data URL format");
}
