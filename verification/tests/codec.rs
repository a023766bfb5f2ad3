use beacn_utility::codec::{decode_image, image_from_rgba_bytes, CodecError, JPEG_QUALITY};
use beacn_utility::colour::Rgba;
use beacn_utility::layout::DrawingUtils;
use beacn_utility::raster::Image;

#[test]
fn an_image_is_encoded_as_a_jpeg_of_its_size() {
    let image = Image::from_pixel(24, 16, Rgba { red: 200, green: 40, blue: 40, alpha: 255 });
    let background = Rgba { red: 0, green: 0, blue: 0, alpha: 255 };
    let bytes = DrawingUtils::image_as_jpeg(&image, background, JPEG_QUALITY).unwrap();
    assert_eq!(&bytes[..2], &[0xFF, 0xD8]);
    assert_eq!(&bytes[bytes.len() - 2..], &[0xFF, 0xD9]);
    let decoded = decode_image(&bytes).unwrap();
    assert_eq!((decoded.width(), decoded.height()), (24, 16));
    let pixel = decoded.get_pixel(12, 8);
    assert!(pixel.red > 180 && pixel.green < 70 && pixel.blue < 70);
    assert_eq!(pixel.alpha, 255);
    let again = DrawingUtils::image_as_jpeg(&image, background, JPEG_QUALITY).unwrap();
    assert_eq!(again, bytes);
}

#[test]
fn a_transparent_image_shows_the_background_it_is_flattened_onto() {
    let image = Image::new(16, 16);
    let background = Rgba { red: 51, green: 55, blue: 53, alpha: 255 };
    let bytes = DrawingUtils::image_as_jpeg(&image, background, 100).unwrap();
    let pixel = decode_image(&bytes).unwrap().get_pixel(8, 8);
    assert!((pixel.red as i32 - 51).abs() <= 2);
    assert!((pixel.green as i32 - 55).abs() <= 2);
    assert!((pixel.blue as i32 - 53).abs() <= 2);
}

#[test]
fn an_image_without_pixels_cannot_be_encoded() {
    let background = Rgba { red: 0, green: 0, blue: 0, alpha: 255 };
    assert_eq!(
        DrawingUtils::image_as_jpeg(&Image::new(0, 5), background, 70).err(),
        Some(CodecError::Encode)
    );
    assert_eq!(
        DrawingUtils::image_as_jpeg(&Image::new(5, 0), background, 70).err(),
        Some(CodecError::Encode)
    );
}

#[test]
fn every_image_with_pixels_can_be_encoded() {
    let background = Rgba { red: 0, green: 0, blue: 0, alpha: 255 };
    for (width, height) in [(1, 1), (1, 9), (7, 1), (8, 8), (17, 3), (800, 480)] {
        let bytes = DrawingUtils::image_as_jpeg(&Image::new(width, height), background, 70).unwrap();
        let decoded = decode_image(&bytes).unwrap();
        assert_eq!((decoded.width(), decoded.height()), (width, height));
    }
    for quality in [0, 1, 50, 100, 255] {
        assert!(DrawingUtils::image_as_jpeg(&Image::new(3, 3), background, quality).is_ok());
    }
}

#[test]
fn bytes_that_are_no_picture_cannot_be_decoded() {
    assert_eq!(decode_image(&vec![]).err(), Some(CodecError::Decode));
    assert_eq!(decode_image(&vec![1, 2, 3, 4, 5]).err(), Some(CodecError::Decode));
    assert_eq!(decode_image(&vec![0xFF, 0xD8, 0xFF]).err(), Some(CodecError::Decode));
}

#[test]
fn a_decoded_buffer_becomes_an_image_when_it_fits() {
    let data = vec![1, 2, 3, 4, 5, 6, 7, 8];
    let image = image_from_rgba_bytes(2, 1, &data).unwrap();
    assert_eq!(image.get_pixel(0, 0), Rgba { red: 1, green: 2, blue: 3, alpha: 4 });
    assert_eq!(image.get_pixel(1, 0), Rgba { red: 5, green: 6, blue: 7, alpha: 8 });
    assert_eq!(image_from_rgba_bytes(1, 1, &data).err(), Some(CodecError::Size));
    assert_eq!(image_from_rgba_bytes(2, 2, &data).err(), Some(CodecError::Size));
    assert_eq!(image_from_rgba_bytes(20000, 0, &vec![]).err(), Some(CodecError::Size));
    assert!(image_from_rgba_bytes(0, 0, &vec![]).is_ok());
}
