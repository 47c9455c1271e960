use gdcef::pixels::bgra_to_rgba;

#[test]
fn test_bgra_to_rgba_single_pixel() {
    // BGRA: B=10, G=20, R=30, A=255 -> RGBA: R=30, G=20, B=10, A=255
    let bgra = vec![10, 20, 30, 255];
    let rgba = bgra_to_rgba(&bgra);
    assert_eq!(rgba, vec![30, 20, 10, 255]);
}

#[test]
fn test_bgra_to_rgba_four_pixels_simd_path() {
    // Exactly 16 bytes (4 pixels) take the vector path.
    let bgra = vec![
        10, 20, 30, 255, // pixel 0: B=10, G=20, R=30
        0, 128, 255, 200, // pixel 1: B=0, G=128, R=255
        50, 50, 50, 128, // pixel 2: B=50, G=50, R=50
        255, 0, 0, 0, // pixel 3: B=255, G=0, R=0
    ];
    let rgba = bgra_to_rgba(&bgra);
    assert_eq!(
        rgba,
        vec![
            30, 20, 10, 255, // pixel 0: R=30, G=20, B=10
            255, 128, 0, 200, // pixel 1: R=255, G=128, B=0
            50, 50, 50, 128, // pixel 2: R=50, G=50, B=50
            0, 0, 255, 0, // pixel 3: R=0, G=0, B=255
        ]
    );
}

#[test]
fn test_bgra_to_rgba_mixed_simd_and_remainder() {
    // 20 bytes = 4 pixels at once + 1 pixel
    let bgra = vec![
        10, 20, 30, 255, 0, 128, 255, 200, 50, 50, 50, 128, 255, 0, 0, 0,
        // remainder pixel:
        100, 150, 200, 250,
    ];
    let rgba = bgra_to_rgba(&bgra);
    assert_eq!(rgba.len(), 20);
    // Check remainder pixel: BGRA(100,150,200,250) -> RGBA(200,150,100,250)
    assert_eq!(&rgba[16..20], &[200, 150, 100, 250]);
}

#[test]
fn test_bgra_to_rgba_empty() {
    let rgba = bgra_to_rgba(&[]);
    assert!(rgba.is_empty());
}

#[test]
fn test_bgra_to_rgba_roundtrip() {
    // Swapping red and blue is its own inverse.
    let original = vec![10, 20, 30, 255, 40, 50, 60, 128];
    let converted = bgra_to_rgba(&original);
    let roundtrip = bgra_to_rgba(&converted);
    assert_eq!(roundtrip, original);
}

#[test]
fn long_buffers_roundtrip() {
    let original: Vec<u8> = (0..200u32).map(|i| (i * 7 % 256) as u8).collect();
    let converted = bgra_to_rgba(&original);
    for pixel in 0..50 {
        assert_eq!(converted[4 * pixel], original[4 * pixel + 2]);
        assert_eq!(converted[4 * pixel + 1], original[4 * pixel + 1]);
        assert_eq!(converted[4 * pixel + 2], original[4 * pixel]);
        assert_eq!(converted[4 * pixel + 3], original[4 * pixel + 3]);
    }
    assert_eq!(bgra_to_rgba(&converted), original);
}

#[test]
fn bytes_behind_the_last_pixel_become_zero() {
    assert_eq!(bgra_to_rgba(&[1, 2, 3, 4, 5, 6, 7]), vec![3, 2, 1, 4, 0, 0, 0]);
    assert_eq!(bgra_to_rgba(&[9]), vec![0]);
}
