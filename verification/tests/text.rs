use beacn_utility::colour::Rgba;
use beacn_utility::layout::{DrawingUtils, TextAlign};
use beacn_utility::text::Glyph;

const INK: Rgba = Rgba { red: 180, green: 180, blue: 180, alpha: 255 };
const NOTHING: Rgba = Rgba { red: 0, green: 0, blue: 0, alpha: 0 };

fn block(width: u32, height: u32, advance: u32, coverage: u8) -> Glyph {
    Glyph::new(width, height, 0, 0, advance, vec![coverage; (width * height) as usize]).unwrap()
}

#[test]
fn a_glyph_needs_a_bitmap_of_its_size() {
    assert!(Glyph::new(2, 3, 0, 0, 2, vec![0; 6]).is_some());
    assert!(Glyph::new(2, 3, 0, 0, 2, vec![0; 5]).is_none());
    assert!(Glyph::new(20000, 1, 0, 0, 2, vec![0; 20000]).is_none());
    assert!(Glyph::new(0, 0, -1, 5, 7, vec![]).is_some());
}

#[test]
fn glyphs_stand_on_the_baseline_side_by_side() {
    let glyphs = vec![block(2, 3, 3, 200), block(1, 2, 2, 100)];
    let image = DrawingUtils::draw_text(&glyphs, 8, 6, 5, INK, TextAlign::Left);
    for y in 0..6u32 {
        for x in 0..8u32 {
            let expected = if x < 2 && (2..5).contains(&y) {
                Rgba { alpha: 200, ..INK }
            } else if x == 3 && (3..5).contains(&y) {
                Rgba { alpha: 100, ..INK }
            } else {
                NOTHING
            };
            assert_eq!(image.get_pixel(x, y), expected, "at {} {}", x, y);
        }
    }
}

#[test]
fn a_line_is_centred_or_set_to_the_right() {
    let glyphs = vec![block(1, 1, 2, 9), block(1, 1, 2, 9)];
    let centred = DrawingUtils::draw_text(&glyphs, 9, 2, 1, INK, TextAlign::Center);
    let lit: Vec<u32> = (0..9).filter(|x| centred.get_pixel(*x, 0).alpha > 0).collect();
    assert_eq!(lit, vec![2, 4]);
    let right = DrawingUtils::draw_text(&glyphs, 9, 2, 1, INK, TextAlign::Right);
    let lit: Vec<u32> = (0..9).filter(|x| right.get_pixel(*x, 0).alpha > 0).collect();
    assert_eq!(lit, vec![5, 7]);
}

#[test]
fn a_line_wider_than_its_box_starts_at_the_left_when_centred() {
    let glyphs = vec![block(2, 1, 4, 9), block(2, 1, 4, 9)];
    let centred = DrawingUtils::draw_text(&glyphs, 5, 1, 1, INK, TextAlign::Center);
    let lit: Vec<u32> = (0..5).filter(|x| centred.get_pixel(*x, 0).alpha > 0).collect();
    assert_eq!(lit, vec![0, 1, 4]);
    let right = DrawingUtils::draw_text(&glyphs, 5, 1, 1, INK, TextAlign::Right);
    let lit: Vec<u32> = (0..5).filter(|x| right.get_pixel(*x, 0).alpha > 0).collect();
    assert_eq!(lit, vec![1, 2]);
}

#[test]
fn a_glyph_is_moved_by_its_bearings_and_cut_at_the_edges() {
    let glyph = Glyph::new(3, 2, -1, -1, 3, vec![1, 2, 3, 4, 5, 6]).unwrap();
    let image = DrawingUtils::draw_text(&vec![glyph], 2, 3, 2, INK, TextAlign::Left);
    // the bitmap's top left corner stands at (-1, 2 + 1 - 2) = (-1, 1)
    assert_eq!(image.get_pixel(0, 0), NOTHING);
    assert_eq!(image.get_pixel(0, 1).alpha, 2);
    assert_eq!(image.get_pixel(1, 1).alpha, 3);
    assert_eq!(image.get_pixel(0, 2).alpha, 5);
    assert_eq!(image.get_pixel(1, 2).alpha, 6);
}

#[test]
fn a_later_glyph_paints_over_an_earlier_one_where_it_covers() {
    let first = block(2, 1, 1, 50);
    let second = Glyph::new(2, 1, 0, 0, 2, vec![0, 70]).unwrap();
    let image = DrawingUtils::draw_text(&vec![first, second], 4, 1, 1, INK, TextAlign::Left);
    let alphas: Vec<u8> = (0..4).map(|x| image.get_pixel(x, 0).alpha).collect();
    assert_eq!(alphas, vec![50, 50, 70, 0]);
}

#[test]
fn no_glyphs_give_an_empty_picture() {
    let image = DrawingUtils::draw_text(&vec![], 3, 2, 1, INK, TextAlign::Center);
    for y in 0..2 {
        for x in 0..3 {
            assert_eq!(image.get_pixel(x, y), NOTHING);
        }
    }
}
