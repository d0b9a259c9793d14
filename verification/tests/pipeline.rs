use memefinder::converter::convert_and_resize;
use memefinder::converter::convert_image;
use memefinder::error::ServiceError;
use memefinder::raster::decode;
use memefinder::raster::resize_to_fit;
use memefinder::raster::ImageTiers;

fn gradient(width: u32, height: u32) -> image::DynamicImage {
    let mut buffer = image::RgbImage::new(width, height);
    for (x, y, pixel) in buffer.enumerate_pixels_mut() {
        *pixel = image::Rgb([(x % 256) as u8, (y % 256) as u8, ((x + y) % 256) as u8]);
    }
    image::DynamicImage::ImageRgb8(buffer)
}

fn encoded(picture: &image::DynamicImage, format: image::ImageOutputFormat) -> Vec<u8> {
    let mut bytes = Vec::new();
    picture.write_to(&mut std::io::Cursor::new(&mut bytes), format).unwrap();
    bytes
}

fn size_of(bytes: &[u8]) -> (u32, u32) {
    let picture = image::load_from_memory(bytes).unwrap();
    (picture.width(), picture.height())
}

#[test]
fn decode_reads_the_size_from_the_content() {
    let png = encoded(&gradient(30, 20), image::ImageOutputFormat::Png);
    let raster = decode(&png).unwrap();
    assert_eq!((raster.width(), raster.height()), (30, 20));
    let jpeg = encoded(&gradient(17, 33), image::ImageOutputFormat::Jpeg(90));
    let raster = decode(&jpeg).unwrap();
    assert_eq!((raster.width(), raster.height()), (17, 33));
}

#[test]
fn a_decoder_that_read_nothing_means_a_decode_failure() {
    assert!(matches!(memefinder::raster::decoded(None), Err(ServiceError::Decode)));
    let png = encoded(&gradient(3, 2), image::ImageOutputFormat::Png);
    let raster = decode(&png).unwrap();
    let kept = memefinder::raster::decoded(Some(raster)).unwrap();
    assert_eq!((kept.width(), kept.height()), (3, 2));
    assert!(matches!(memefinder::raster::encoded(None), Err(ServiceError::Encode)));
    assert_eq!(memefinder::raster::encoded(Some(vec![1, 2])).unwrap(), vec![1, 2]);
}

#[test]
fn decode_refuses_malformed_bytes() {
    assert!(matches!(decode(&[]), Err(ServiceError::Decode)));
    assert!(matches!(decode(b"certainly not an image"), Err(ServiceError::Decode)));
    let png = encoded(&gradient(30, 20), image::ImageOutputFormat::Png);
    assert!(matches!(decode(&png[..12]), Err(ServiceError::Decode)));
    assert!(matches!(decode(&png[..png.len() / 2]), Err(ServiceError::Decode)));
}

#[test]
fn resize_returns_what_fits_unchanged() {
    let png = encoded(&gradient(100, 60), image::ImageOutputFormat::Png);
    let raster = decode(&png).unwrap();
    let same = resize_to_fit(&raster, 256, 256);
    assert_eq!((same.width(), same.height()), (100, 60));
    assert_eq!(same.encode_png().unwrap(), raster.encode_png().unwrap());
    let exact = resize_to_fit(&raster, 100, 60);
    assert_eq!((exact.width(), exact.height()), (100, 60));
}

#[test]
fn resize_fits_the_box_and_keeps_the_aspect() {
    let png = encoded(&gradient(400, 300), image::ImageOutputFormat::Png);
    let raster = decode(&png).unwrap();
    let wide = resize_to_fit(&raster, 256, 256);
    assert_eq!((wide.width(), wide.height()), (256, 192));
    let tall = resize_to_fit(&raster, 1000, 30);
    assert_eq!((tall.width(), tall.height()), (40, 30));
    let thin = resize_to_fit(&raster, 1, 1);
    assert_eq!((thin.width(), thin.height()), (1, 1));
    let png = encoded(&gradient(1000, 3), image::ImageOutputFormat::Png);
    let sliver = resize_to_fit(&decode(&png).unwrap(), 256, 256);
    assert_eq!((sliver.width(), sliver.height()), (256, 1));
}

#[test]
fn tiers_shrink_from_full_to_preview() {
    let png = encoded(&gradient(1300, 500), image::ImageOutputFormat::Png);
    let tiers = ImageTiers::derive(decode(&png).unwrap());
    assert_eq!((tiers.full.width(), tiers.full.height()), (1300, 500));
    assert_eq!((tiers.normal.width(), tiers.normal.height()), (1024, 394));
    assert_eq!((tiers.preview.width(), tiers.preview.height()), (256, 98));
    let png = encoded(&gradient(300, 700), image::ImageOutputFormat::Png);
    let tiers = ImageTiers::derive(decode(&png).unwrap());
    assert_eq!((tiers.normal.width(), tiers.normal.height()), (300, 700));
    assert_eq!((tiers.preview.width(), tiers.preview.height()), (110, 256));
}

#[test]
fn encoder_gives_three_decodable_buffers() {
    let picture = gradient(64, 48);
    let raster = decode(&encoded(&picture, image::ImageOutputFormat::Png)).unwrap();
    let images = convert_image(&raster).unwrap();
    assert!(!images.png.is_empty() && !images.jpeg.is_empty() && !images.webp.is_empty());
    assert_eq!(&images.png[..8], &[137, 80, 78, 71, 13, 10, 26, 10]);
    assert_eq!(&images.jpeg[..2], &[0xff, 0xd8]);
    assert_eq!(&images.webp[..4], b"RIFF");
    assert_eq!(&images.webp[8..12], b"WEBP");
    let lossless = image::load_from_memory(&images.png).unwrap();
    assert_eq!(lossless, picture);
    assert_eq!(size_of(&images.jpeg), (64, 48));
    let webp = webp::Decoder::new(&images.webp).decode().unwrap();
    assert_eq!((webp.width(), webp.height()), (64, 48));
    assert_eq!(images.png, encoded(&picture, image::ImageOutputFormat::Png));
    assert_eq!(images.jpeg, encoded(&picture, image::ImageOutputFormat::Jpeg(80)));
    assert_ne!(images.jpeg, encoded(&picture, image::ImageOutputFormat::Jpeg(81)));
    let direct = webp::Encoder::from_image(&picture).unwrap().encode_simple(false, 65.0).unwrap();
    assert_eq!(images.webp, direct.to_vec());
    let again = convert_image(&raster).unwrap();
    assert_eq!(again.png, images.png);
    assert_eq!(again.jpeg, images.jpeg);
    assert_eq!(again.webp, images.webp);
}

#[test]
fn encoder_fails_on_a_layout_the_modern_format_does_not_take() {
    let gray = image::DynamicImage::ImageLuma8(image::GrayImage::new(8, 8));
    let raster = decode(&encoded(&gray, image::ImageOutputFormat::Png)).unwrap();
    assert!(raster.encode_png().is_ok());
    assert!(raster.encode_jpeg().is_ok());
    assert!(matches!(raster.encode_webp(), Err(ServiceError::Encode)));
    assert!(matches!(convert_image(&raster), Err(ServiceError::Encode)));
}

#[test]
fn small_png_is_encoded_nine_times_at_its_own_size() {
    let source = encoded(&gradient(100, 100), image::ImageOutputFormat::Png);
    let images = convert_and_resize(source.clone()).unwrap();
    assert_eq!(images.original, source);
    for tier in [&images.full, &images.normal, &images.preview] {
        assert_eq!(size_of(&tier.png), (100, 100));
        assert_eq!(size_of(&tier.jpeg), (100, 100));
        let webp = webp::Decoder::new(&tier.webp).decode().unwrap();
        assert_eq!((webp.width(), webp.height()), (100, 100));
    }
    assert_eq!(images.normal.png, images.full.png);
    assert_eq!(images.preview.png, images.full.png);
}

#[test]
fn large_jpeg_is_fitted_to_the_tiers() {
    let source = encoded(&gradient(2000, 1500), image::ImageOutputFormat::Jpeg(85));
    let images = convert_and_resize(source.clone()).unwrap();
    assert_eq!(images.original, source);
    assert_eq!(size_of(&images.full.png), (2000, 1500));
    assert_eq!(size_of(&images.full.jpeg), (2000, 1500));
    assert_eq!(size_of(&images.normal.png), (1024, 768));
    assert_eq!(size_of(&images.normal.jpeg), (1024, 768));
    assert_eq!(size_of(&images.preview.png), (256, 192));
    assert_eq!(size_of(&images.preview.jpeg), (256, 192));
    let webp = webp::Decoder::new(&images.preview.webp).decode().unwrap();
    assert_eq!((webp.width(), webp.height()), (256, 192));
}

#[test]
fn malformed_bytes_fail_with_decode() {
    assert!(matches!(convert_and_resize(vec![0x89, 0x50, 0x4e]), Err(ServiceError::Decode)));
    assert!(matches!(convert_and_resize(Vec::new()), Err(ServiceError::Decode)));
}
