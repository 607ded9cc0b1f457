use dot_overlay::dimensions_valid;
use dot_overlay::pixel::{convert_surface, pack_rgba};

#[test]
fn pack_formula_exact() {
    assert_eq!(pack_rgba(0x12, 0x34, 0x56, 0x00), 0x123456);
    assert_eq!(pack_rgba(255, 255, 255, 128), 0x00FFFFFF);
    assert_eq!(pack_rgba(0, 0, 0, 128), 0);
    assert_eq!(pack_rgba(1, 0, 0, 0), 0x010000);
    assert_eq!(pack_rgba(0, 1, 0, 0), 0x000100);
    assert_eq!(pack_rgba(0, 0, 1, 0), 0x000001);
}

#[test]
fn pack_ignores_alpha() {
    for a in [0u8, 1, 127, 128, 255] {
        assert_eq!(pack_rgba(10, 20, 30, a), pack_rgba(10, 20, 30, 0));
    }
}

#[test]
fn pack_high_byte_clear() {
    assert!(pack_rgba(255, 255, 255, 255) < 0x1000000);
    assert!(pack_rgba(200, 3, 77, 9) < 0x1000000);
}

#[test]
fn convert_exact_values() {
    // A 2 x 1 surface: one red-ish pixel, one blue-ish pixel.
    let rgba: Vec<u8> = vec![0x10, 0x20, 0x30, 0x40, 0xAA, 0xBB, 0xCC, 0xDD];
    let out = convert_surface(&rgba, 2, 1);
    assert_eq!(out, vec![0x102030, 0xAABBCC]);
}

#[test]
fn convert_length_matches_pixel_count() {
    let rgba: Vec<u8> = vec![0; 4 * 6 * 5];
    let out = convert_surface(&rgba, 6, 5);
    assert_eq!(out.len(), 30);
    assert!(out.iter().all(|p| *p == 0));
}

#[test]
fn zero_dimension_is_rejected() {
    assert!(!dimensions_valid(0, 10));
    assert!(!dimensions_valid(10, 0));
    assert!(!dimensions_valid(0, 0));
    assert!(dimensions_valid(1, 1));
    assert!(dimensions_valid(1920, 1080));
}
