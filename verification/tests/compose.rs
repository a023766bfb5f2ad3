use beacn_utility::colour::{Rgb, Rgba};
use beacn_utility::layout::DrawingUtils;
use beacn_utility::raster::Image;

fn rgba(red: u8, green: u8, blue: u8, alpha: u8) -> Rgba {
    Rgba { red, green, blue, alpha }
}

#[test]
fn a_transparent_overlay_leaves_the_base_as_it_is() {
    let mut base = Image::from_pixel(5, 4, rgba(1, 2, 3, 200));
    base.put_pixel(2, 1, rgba(9, 8, 7, 6));
    let before = base.pixels().clone();
    let overlay = Image::from_pixel(3, 3, rgba(255, 255, 255, 0));
    DrawingUtils::composite_from(&mut base, &overlay, 1, 1);
    assert_eq!(base.pixels(), &before);
    DrawingUtils::composite_from(&mut base, &overlay, 4, 3);
    assert_eq!(base.pixels(), &before);
    DrawingUtils::composite_from_pos(&mut base, &overlay, (100, 100));
    assert_eq!(base.pixels(), &before);
}

#[test]
fn an_opaque_overlay_replaces_what_it_covers() {
    let mut base = Image::from_pixel(4, 4, rgba(1, 2, 3, 255));
    let overlay = Image::from_pixel(2, 2, rgba(200, 100, 50, 255));
    DrawingUtils::composite_from(&mut base, &overlay, 1, 2);
    for y in 0..4 {
        for x in 0..4 {
            let covered = (1..3).contains(&x) && (2..4).contains(&y);
            let expected = if covered { rgba(200, 100, 50, 255) } else { rgba(1, 2, 3, 255) };
            assert_eq!(base.get_pixel(x, y), expected);
        }
    }
}

#[test]
fn an_overlay_that_hangs_over_the_edge_is_cut() {
    let mut base = Image::from_pixel(3, 3, rgba(0, 0, 0, 255));
    let overlay = Image::from_pixel(3, 3, rgba(255, 255, 255, 255));
    DrawingUtils::composite_from(&mut base, &overlay, 2, 2);
    assert_eq!(base.get_pixel(2, 2), rgba(255, 255, 255, 255));
    assert_eq!(base.get_pixel(1, 2), rgba(0, 0, 0, 255));
    assert_eq!(base.get_pixel(2, 1), rgba(0, 0, 0, 255));
    DrawingUtils::composite_from(&mut base, &overlay, u32::MAX, u32::MAX);
    assert_eq!(base.get_pixel(0, 0), rgba(0, 0, 0, 255));
}

#[test]
fn a_half_transparent_source_is_blended() {
    // src alpha 128 over an opaque destination: weight = 128*255 + 255*127 = 65025
    assert_eq!(
        DrawingUtils::blend_pixel(rgba(255, 0, 100, 128), rgba(0, 255, 100, 255)),
        rgba(128, 127, 100, 255)
    );
    // over a fully transparent destination the source's colour stays
    assert_eq!(
        DrawingUtils::blend_pixel(rgba(200, 100, 50, 100), rgba(9, 9, 9, 0)),
        rgba(200, 100, 50, 100)
    );
    // both half transparent: weight = 100*255 + 100*155 = 41000, alpha = 160
    assert_eq!(
        DrawingUtils::blend_pixel(rgba(255, 0, 0, 100), rgba(0, 0, 255, 100)),
        rgba(158, 0, 96, 160)
    );
    assert_eq!(DrawingUtils::blend_pixel(rgba(1, 2, 3, 0), rgba(4, 5, 6, 7)), rgba(4, 5, 6, 7));
}

#[test]
fn a_pixel_is_flattened_onto_the_background() {
    let background = rgba(51, 55, 53, 255);
    assert_eq!(
        DrawingUtils::flatten_rgba_pixel(rgba(255, 0, 0, 255), background),
        Rgb { red: 255, green: 0, blue: 0 }
    );
    assert_eq!(
        DrawingUtils::flatten_rgba_pixel(rgba(255, 0, 0, 0), background),
        Rgb { red: 51, green: 55, blue: 53 }
    );
    // (255*100*255 + 51*255*155) / (100*255 + 255*155) = 131 exactly
    assert_eq!(
        DrawingUtils::flatten_rgba_pixel(rgba(255, 0, 0, 100), background),
        Rgb { red: 131, green: 33, blue: 32 }
    );
    assert_eq!(
        DrawingUtils::flatten_rgba_pixel(rgba(9, 9, 9, 0), rgba(7, 7, 7, 0)),
        Rgb { red: 0, green: 0, blue: 0 }
    );
}

#[test]
fn an_image_is_flattened_pixel_by_pixel() {
    let mut image = Image::from_pixel(2, 1, rgba(255, 0, 0, 255));
    image.put_pixel(1, 0, rgba(0, 0, 0, 0));
    let bytes = DrawingUtils::flatten_rgba_image(&image, rgba(10, 20, 30, 255));
    assert_eq!(bytes, vec![255, 0, 0, 10, 20, 30]);
}

#[test]
fn an_image_is_built_from_its_pixels_or_not_at_all() {
    let pixels = vec![rgba(1, 1, 1, 1); 6];
    let image = Image::from_pixels(3, 2, pixels.clone()).unwrap();
    assert_eq!(image.width(), 3);
    assert_eq!(image.height(), 2);
    assert!(Image::from_pixels(2, 2, pixels.clone()).is_none());
    assert!(Image::from_pixels(20000, 1, pixels).is_none());
    assert_eq!(Image::new(2, 2).get_pixel(1, 1), rgba(0, 0, 0, 0));
}

#[test]
fn a_crop_is_moved_and_cut_to_the_image() {
    let mut image = Image::new(4, 3);
    for y in 0..3 {
        for x in 0..4 {
            image.put_pixel(x, y, rgba(x as u8, y as u8, 0, 255));
        }
    }
    let part = image.crop(1, 1, 2, 2);
    assert_eq!((part.width(), part.height()), (2, 2));
    assert_eq!(part.get_pixel(0, 0), rgba(1, 1, 0, 255));
    assert_eq!(part.get_pixel(1, 1), rgba(2, 2, 0, 255));
    let cut = image.crop(3, 2, 5, 5);
    assert_eq!((cut.width(), cut.height()), (1, 1));
    assert_eq!(cut.get_pixel(0, 0), rgba(3, 2, 0, 255));
    let none = image.crop(9, 9, 2, 2);
    assert_eq!((none.width(), none.height()), (0, 0));
}

#[test]
fn a_duplicate_has_the_same_pixels() {
    let mut image = Image::new(3, 2);
    image.put_pixel(2, 1, rgba(1, 2, 3, 4));
    let copy = image.duplicate();
    assert_eq!((copy.width(), copy.height()), (3, 2));
    assert_eq!(copy.pixels(), image.pixels());
}
