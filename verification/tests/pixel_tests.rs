use spell_framework::pixel::{PremultipliedRgbaColor, Rgba8Pixel};
use spell_framework::shared_context::{buffer_layout, buffer_shape, get_spell_ingredients, SharedCore};

#[test]
fn new_pixel_keeps_channels() {
    assert_eq!(Rgba8Pixel::new(1, 2, 3, 4), Rgba8Pixel { a: 1, r: 2, g: 3, b: 4 });
}

#[test]
fn default_pixel_is_zero() {
    assert_eq!(Rgba8Pixel::default(), Rgba8Pixel { a: 0, r: 0, g: 0, b: 0 });
}

#[test]
fn from_rgb_is_opaque() {
    assert_eq!(Rgba8Pixel::from_rgb(10, 20, 30), Rgba8Pixel { a: 255, r: 10, g: 20, b: 30 });
}

#[test]
fn background_is_transparent_black() {
    assert_eq!(Rgba8Pixel::background(), Rgba8Pixel { a: 0, r: 0, g: 0, b: 0 });
}

#[test]
fn blend_half_transparent_over_white() {
    let mut px = Rgba8Pixel::new(255, 255, 255, 255);
    px.blend(PremultipliedRgbaColor { red: 64, green: 0, blue: 128, alpha: 128 });
    // Each channel keeps 255 * 127 / 255 = 127 and gains the colour.
    assert_eq!(px, Rgba8Pixel { a: 255, r: 191, g: 127, b: 255 });
}

#[test]
fn blend_opaque_replaces() {
    let mut px = Rgba8Pixel::new(200, 1, 2, 3);
    px.blend(PremultipliedRgbaColor { red: 9, green: 8, blue: 7, alpha: 255 });
    assert_eq!(px, Rgba8Pixel { a: 255, r: 9, g: 8, b: 7 });
}

#[test]
fn blend_transparent_keeps() {
    let mut px = Rgba8Pixel::new(12, 34, 56, 78);
    px.blend(PremultipliedRgbaColor { red: 0, green: 0, blue: 0, alpha: 0 });
    assert_eq!(px, Rgba8Pixel { a: 12, r: 34, g: 56, b: 78 });
}

#[test]
fn blend_rounds_down() {
    let mut px = Rgba8Pixel::new(100, 100, 100, 100);
    px.blend(PremultipliedRgbaColor { red: 10, green: 20, blue: 30, alpha: 100 });
    // 100 * 155 / 255 = 60 (rounded down)
    assert_eq!(px, Rgba8Pixel { a: 160, r: 70, g: 80, b: 90 });
}

#[test]
fn canvas_has_four_bytes_per_pixel_all_ff() {
    let buf = get_spell_ingredients(3, 2);
    assert_eq!(buf.len(), 24);
    assert!(buf.iter().all(|b| *b == 0xFF));
}

#[test]
fn empty_canvas() {
    assert_eq!(get_spell_ingredients(0, 7).len(), 0);
}

#[test]
fn shared_core_resize_matches_new() {
    let mut core = SharedCore::new(2, 2);
    assert_eq!(core.primary_buffer.len(), 16);
    core.resize(4, 1);
    let fresh = SharedCore::new(4, 1);
    assert_eq!(core.primary_buffer, fresh.primary_buffer);
    assert_eq!(core.secondary_buffer, fresh.secondary_buffer);
}

#[test]
fn buffer_layout_of_widget() {
    let l = buffer_layout(376, 576);
    assert_eq!(l.pool_len, 376 * 576 * 4);
    assert_eq!(l.shape.width, 376);
    assert_eq!(l.shape.height, 576);
    assert_eq!(l.shape.stride, 1504);
}

#[test]
fn buffer_shape_casts_height() {
    let s = buffer_shape(10, u32::MAX);
    assert_eq!(s.width, 10);
    assert_eq!(s.height, -1);
    assert_eq!(s.stride, 40);
}
