use image::{ColorType, ImageEncoder};
use snow64::images::{load_picture, load_window_icon, PictureError, RgbaPicture};

fn png(data: &[u8], w: u32, h: u32, color: ColorType) -> Vec<u8> {
    let mut out = Vec::new();
    image::png::PngEncoder::new(&mut out).write_image(data, w, h, color).unwrap();
    out
}

#[test]
fn icon_from_rgba_png() {
    let px = vec![1, 2, 3, 4, 5, 6, 7, 8];
    let bytes = png(&px, 2, 1, ColorType::Rgba8);
    assert_eq!(load_window_icon(&bytes), Ok(RgbaPicture { rgba: px, width: 2, height: 1 }));
}

#[test]
fn icon_from_rgb_png_is_refused() {
    let bytes = png(&[10, 20, 30], 1, 1, ColorType::Rgb8);
    assert_eq!(load_window_icon(&bytes), Err(PictureError::NotRgba8));
}

#[test]
fn picture_from_rgb_png_is_converted() {
    let bytes = png(&[10, 20, 30, 40, 50, 60], 1, 2, ColorType::Rgb8);
    assert_eq!(
        load_picture(&bytes),
        Ok(RgbaPicture { rgba: vec![10, 20, 30, 255, 40, 50, 60, 255], width: 1, height: 2 })
    );
}

#[test]
fn garbage_is_not_a_png() {
    assert!(matches!(load_window_icon(&[1, 2, 3]), Err(PictureError::Decode(_))));
    assert!(matches!(load_picture(&[1, 2, 3]), Err(PictureError::Decode(_))));
}

#[test]
fn picture_holds_four_bytes_per_pixel() {
    let bytes = png(&[1, 2, 3, 4, 5, 6, 7, 8, 9, 10, 11, 12], 2, 2, ColorType::Rgb8);
    let p = load_picture(&bytes).unwrap();
    assert_eq!(p.rgba.len(), 4 * (p.width * p.height) as usize);
}

#[test]
fn rgba_png_converts_to_itself() {
    let px = vec![9, 8, 7, 6, 5, 4, 3, 2];
    let bytes = png(&px, 1, 2, ColorType::Rgba8);
    assert_eq!(load_picture(&bytes), load_window_icon(&bytes));
    assert_eq!(load_picture(&bytes).unwrap().rgba, px);
}
