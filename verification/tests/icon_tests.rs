use dot_overlay::icon::{decode_icon, icon_from_parts};

fn encode(width: u32, height: u32, rgba: Vec<u8>, format: image::ImageFormat) -> Vec<u8> {
    let img = image::RgbaImage::from_raw(width, height, rgba).unwrap();
    let mut bytes: Vec<u8> = Vec::new();
    image::DynamicImage::ImageRgba8(img)
        .write_to(&mut std::io::Cursor::new(&mut bytes), format)
        .unwrap();
    bytes
}

#[test]
fn decode_failure_yields_none() {
    // Not a decodable image: the program must abort before any window
    // is created.
    assert!(decode_icon(&[0x00, 0x01, 0x02, 0x03]).is_none());
    assert!(decode_icon(&[]).is_none());
}

#[test]
fn decode_png_roundtrip() {
    let pixels: Vec<u8> = vec![
        255, 0, 0, 255, /* red */
        0, 255, 0, 255, /* green */
        0, 0, 255, 255, /* blue */
        9, 8, 7, 6, /* arbitrary */
    ];
    let bytes = encode(2, 2, pixels.clone(), image::ImageFormat::Png);
    let icon = decode_icon(&bytes).unwrap();
    assert_eq!(icon.width, 2);
    assert_eq!(icon.height, 2);
    assert_eq!(icon.rgba, pixels);
}

#[test]
fn decode_ico_resource() {
    let pixels: Vec<u8> = vec![10, 20, 30, 255, 40, 50, 60, 255, 70, 80, 90, 255, 1, 2, 3, 255];
    let bytes = encode(2, 2, pixels.clone(), image::ImageFormat::Ico);
    let icon = decode_icon(&bytes).unwrap();
    assert_eq!((icon.width, icon.height), (2, 2));
    assert_eq!(icon.rgba, pixels);
}

#[test]
fn icon_parts_must_match_dimensions() {
    assert!(icon_from_parts(vec![0; 15], 2, 2).is_none());
    assert!(icon_from_parts(vec![0; 17], 2, 2).is_none());
    let icon = icon_from_parts(vec![0; 16], 2, 2).unwrap();
    assert_eq!((icon.width, icon.height), (2, 2));
    assert_eq!(icon.rgba.len(), 16);
}
