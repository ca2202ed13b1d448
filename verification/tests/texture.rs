use raytracer::color::Color;
use raytracer::texture::{Texture, TextureError};

fn four_pixels() -> Vec<Color> {
    vec![
        Color::new(1, 0, 0),
        Color::new(2, 0, 0),
        Color::new(3, 0, 0),
        Color::new(4, 0, 0),
    ]
}

#[test]
fn new_accepts_matching_grid() {
    let t = Texture::new(2, 2, four_pixels()).unwrap();
    assert_eq!(t.width(), 2);
    assert_eq!(t.height(), 2);
}

#[test]
fn new_rejects_zero_width() {
    assert!(matches!(Texture::new(0, 4, vec![]), Err(TextureError::ZeroDimension)));
}

#[test]
fn new_rejects_zero_height() {
    assert!(matches!(Texture::new(4, 0, vec![]), Err(TextureError::ZeroDimension)));
}

#[test]
fn new_rejects_wrong_pixel_count() {
    let mut pixels = four_pixels();
    pixels.pop();
    assert!(matches!(Texture::new(2, 2, pixels), Err(TextureError::SizeMismatch)));
}

#[test]
fn pixel_at_is_row_major() {
    let t = Texture::new(2, 2, four_pixels()).unwrap();
    assert_eq!(t.pixel_at(0, 0), Color::new(1, 0, 0));
    assert_eq!(t.pixel_at(1, 0), Color::new(2, 0, 0));
    assert_eq!(t.pixel_at(0, 1), Color::new(3, 0, 0));
    assert_eq!(t.pixel_at(1, 1), Color::new(4, 0, 0));
}

#[test]
fn pixel_clamped_saturates_at_border() {
    let t = Texture::new(2, 2, four_pixels()).unwrap();
    assert_eq!(t.pixel_clamped(0, 0), Color::new(1, 0, 0));
    assert_eq!(t.pixel_clamped(9, 0), Color::new(2, 0, 0));
    assert_eq!(t.pixel_clamped(0, 9), Color::new(3, 0, 0));
    assert_eq!(t.pixel_clamped(7, 8), Color::new(4, 0, 0));
}

#[test]
fn pixel_wrapped_tiles_by_modulo() {
    let t = Texture::new(2, 2, four_pixels()).unwrap();
    assert_eq!(t.pixel_wrapped(2, 2), Color::new(1, 0, 0));
    assert_eq!(t.pixel_wrapped(3, 2), Color::new(2, 0, 0));
    assert_eq!(t.pixel_wrapped(2, 5), Color::new(3, 0, 0));
    assert_eq!(t.pixel_wrapped(5, 3), Color::new(4, 0, 0));
}

#[test]
fn one_pixel_texture_answers_every_lookup() {
    let t = Texture::new(1, 1, vec![Color::new(9, 9, 9)]).unwrap();
    assert_eq!(t.pixel_clamped(100, 100), Color::new(9, 9, 9));
    assert_eq!(t.pixel_wrapped(100, 100), Color::new(9, 9, 9));
}
