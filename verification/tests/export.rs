use image::ImageEncoder;
use stargazer::config::RasterConfig;
use stargazer::frame::{assemble_frame, Rgb};

#[test]
fn export_raster_is_twice_the_display() {
    let c: RasterConfig = RasterConfig::standard();
    assert_eq!(c.export_width(), 3000);
    assert_eq!(c.export_height(), 2000);
}

#[test]
fn full_export_buffer_has_three_bytes_per_pixel() {
    let cells: usize = 3000 * 2000;
    let mut pixels: Vec<Rgb> = Vec::with_capacity(cells);
    for k in 0..cells {
        let shade: u8 = (k % 251) as u8;
        pixels.push(Rgb { r: shade, g: shade.wrapping_add(7), b: shade.wrapping_add(13) });
    }
    let bytes: Vec<u8> = assemble_frame(3000, 2000, &pixels).into_bytes();
    assert_eq!(bytes.len(), 3000 * 2000 * 3);
}

#[test]
fn exported_buffer_encodes_as_valid_png() {
    let width: u32 = 30;
    let height: u32 = 20;
    let mut pixels: Vec<Rgb> = Vec::new();
    for y in 0..height {
        for x in 0..width {
            pixels.push(Rgb { r: (7 * x) as u8, g: (11 * y) as u8, b: (x + y) as u8 });
        }
    }
    let bytes: Vec<u8> = assemble_frame(width, height, &pixels).into_bytes();

    let mut encoded: Vec<u8> = Vec::new();
    image::codecs::png::PngEncoder::new(&mut encoded)
        .write_image(&bytes, width, height, image::ExtendedColorType::Rgb8)
        .unwrap();

    let decoded = image::load_from_memory(&encoded).unwrap();
    assert_eq!(decoded.width(), width);
    assert_eq!(decoded.height(), height);
    assert_eq!(decoded.to_rgb8().into_raw(), bytes);
}
