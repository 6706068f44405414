use ogp_tui::pixel::Image;

fn sample_dynamic_image() -> image::DynamicImage {
    let mut buf = image::RgbImage::new(2, 2);
    buf.put_pixel(0, 0, image::Rgb([10, 20, 30]));
    buf.put_pixel(1, 0, image::Rgb([40, 50, 60]));
    buf.put_pixel(0, 1, image::Rgb([70, 80, 90]));
    buf.put_pixel(1, 1, image::Rgb([100, 110, 120]));
    image::DynamicImage::ImageRgb8(buf)
}

#[test]
fn from_dynamic_image_copies_samples_row_major() {
    let img = Image::from_dynamic_image(&sample_dynamic_image());
    assert_eq!(img.width, 2);
    assert_eq!(img.height, 2);
    assert_eq!(
        img.pixels,
        vec![(10, 20, 30), (40, 50, 60), (70, 80, 90), (100, 110, 120)]
    );
}

#[test]
fn decode_reads_png_bytes() {
    let mut bytes: Vec<u8> = Vec::new();
    sample_dynamic_image()
        .write_to(&mut std::io::Cursor::new(&mut bytes), image::ImageFormat::Png)
        .unwrap();
    let decoded = Image::decode(&bytes).unwrap();
    assert_eq!(decoded.width, 2);
    assert_eq!(decoded.height, 2);
    assert_eq!(
        decoded.pixels,
        vec![(10, 20, 30), (40, 50, 60), (70, 80, 90), (100, 110, 120)]
    );
}

#[test]
fn from_dynamic_image_handles_degenerate_sources() {
    let zero_width = image::DynamicImage::ImageRgb8(image::RgbImage::new(0, 2));
    let img = Image::from_dynamic_image(&zero_width);
    assert_eq!(img.width, 0);
    assert_eq!(img.height, 2);
    assert!(img.pixels.is_empty());
    assert!(Image::accept_grid(img).is_none());
    let zero_both = image::DynamicImage::ImageRgb8(image::RgbImage::new(0, 0));
    assert!(Image::from_dynamic_image(&zero_both).pixels.is_empty());
}

#[test]
fn accept_grid_keeps_well_formed_grids_unchanged() {
    let grid = Image {
        width: 2,
        height: 1,
        pixels: vec![(1, 2, 3), (4, 5, 6)],
    };
    let kept = Image::accept_grid(grid).unwrap();
    assert_eq!(kept.width, 2);
    assert_eq!(kept.height, 1);
    assert_eq!(kept.pixels, vec![(1, 2, 3), (4, 5, 6)]);
}

#[test]
fn accept_grid_rejects_empty_or_incomplete_grids() {
    let empty = Image {
        width: 0,
        height: 0,
        pixels: Vec::new(),
    };
    assert!(Image::accept_grid(empty).is_none());
    let flat = Image {
        width: 3,
        height: 0,
        pixels: Vec::new(),
    };
    assert!(Image::accept_grid(flat).is_none());
    let incomplete = Image {
        width: 2,
        height: 2,
        pixels: vec![(0, 0, 0)],
    };
    assert!(Image::accept_grid(incomplete).is_none());
}

#[test]
fn duplicate_copies_the_grid() {
    let grid = Image {
        width: 2,
        height: 1,
        pixels: vec![(9, 8, 7), (6, 5, 4)],
    };
    let copy = grid.duplicate();
    assert_eq!(copy.width, 2);
    assert_eq!(copy.height, 1);
    assert_eq!(copy.pixels, grid.pixels);
}

#[test]
fn decode_rejects_unsupported_bytes() {
    let bytes: Vec<u8> = vec![1, 2, 3, 4, 5, 6, 7, 8];
    assert!(Image::decode(&bytes).is_none());
    assert!(Image::decode(&Vec::new()).is_none());
}
