use galleria::error::GalleryError;
use galleria::image_processor::{
    finish_derivative, generate, process_image, resize_and_compress, SourceImage,
};
use galleria::models::CompressedImage;
use galleria::tier::{DerivativePlan, Tier};
use std::io::Cursor;

fn gradient(width: u32, height: u32) -> image::DynamicImage {
    let pixels = image::RgbImage::from_fn(width, height, |x, y| {
        image::Rgb([(x % 256) as u8, (y % 256) as u8, ((x + y) % 256) as u8])
    });
    image::DynamicImage::ImageRgb8(pixels)
}

fn encoded(picture: &image::DynamicImage, format: image::ImageFormat) -> Vec<u8> {
    let mut bytes = Vec::new();
    picture.write_to(Cursor::new(&mut bytes), format).unwrap();
    bytes
}

fn shape(images: &[CompressedImage]) -> Vec<(String, u32, u32)> {
    images.iter().map(|image| (image.size_name.clone(), image.width, image.height)).collect()
}

/// Reads the dimensions from the header of an encoded image.
fn header_size(data: &[u8]) -> (image::ImageFormat, u32, u32) {
    let reader = image::ImageReader::new(Cursor::new(data)).with_guessed_format().unwrap();
    let format = reader.format().unwrap();
    let (width, height) = reader.into_dimensions().unwrap();
    (format, width, height)
}

fn assert_is_jpeg_of_recorded_size(image: &CompressedImage) {
    assert_eq!(&image.data[..2], &[0xff, 0xd8]);
    assert_eq!(image::guess_format(&image.data).unwrap(), image::ImageFormat::Jpeg);
    let decoded = image::load_from_memory(&image.data).unwrap();
    assert_eq!((decoded.width(), decoded.height()), (image.width, image.height));
}

fn large_jpeg() -> SourceImage {
    let flat = image::GrayImage::from_pixel(3000, 2000, image::Luma([90]));
    let source = encoded(&image::DynamicImage::ImageLuma8(flat), image::ImageFormat::Jpeg);
    assert_eq!(header_size(&source), (image::ImageFormat::Jpeg, 3000, 2000));
    SourceImage::decode(&source).unwrap()
}

fn assert_derivative(source: &SourceImage, tier: Tier, name: &str, width: u32, height: u32) {
    let image = resize_and_compress(source, tier).unwrap();
    assert_eq!((image.size_name.as_str(), image.width, image.height), (name, width, height));
    assert_eq!(header_size(&image.data), (image::ImageFormat::Jpeg, width, height));
}

#[test]
fn scenario_large_jpeg_thumbnail() {
    assert_derivative(&large_jpeg(), Tier::Thumbnail, "thumbnail", 200, 133);
}

#[test]
fn scenario_large_jpeg_small() {
    assert_derivative(&large_jpeg(), Tier::Small, "small", 640, 427);
}

#[test]
fn scenario_large_jpeg_medium() {
    assert_derivative(&large_jpeg(), Tier::Medium, "medium", 1280, 853);
}

#[test]
fn scenario_large_jpeg_large() {
    assert_derivative(&large_jpeg(), Tier::Large, "large", 1920, 1280);
}

#[test]
fn scenario_large_jpeg_original() {
    assert_derivative(&large_jpeg(), Tier::Original, "original", 3000, 2000);
}

#[test]
fn a_source_beyond_every_limit_yields_five_derivatives() {
    let flat = image::GrayImage::from_pixel(1930, 100, image::Luma([90]));
    let source = encoded(&image::DynamicImage::ImageLuma8(flat), image::ImageFormat::Jpeg);
    let images = process_image(&source).unwrap();
    assert_eq!(
        shape(&images),
        vec![
            ("thumbnail".to_string(), 200, 10),
            ("small".to_string(), 640, 33),
            ("medium".to_string(), 1280, 66),
            ("large".to_string(), 1920, 99),
            ("original".to_string(), 1930, 100),
        ]
    );
    for image in &images {
        assert_eq!(header_size(&image.data), (image::ImageFormat::Jpeg, image.width, image.height));
    }
}

#[test]
fn scenario_small_png_yields_enlarged_thumbnail_and_original() {
    let source = encoded(&gradient(100, 100), image::ImageFormat::Png);
    let images = process_image(&source).unwrap();
    assert_eq!(
        shape(&images),
        vec![("thumbnail".to_string(), 200, 200), ("original".to_string(), 100, 100)]
    );
    for image in &images {
        assert_is_jpeg_of_recorded_size(image);
    }
}

#[test]
fn a_portrait_source_is_pinned_on_its_height() {
    let source = encoded(&gradient(480, 700), image::ImageFormat::Png);
    let images = process_image(&source).unwrap();
    assert_eq!(
        shape(&images),
        vec![
            ("thumbnail".to_string(), 137, 200),
            ("small".to_string(), 439, 640),
            ("original".to_string(), 480, 700),
        ]
    );
    for image in &images {
        assert_is_jpeg_of_recorded_size(image);
    }
}

#[test]
fn undecodable_bytes_are_a_decode_error() {
    assert_eq!(process_image(b"this is no image"), Err(GalleryError::Decode));
    assert_eq!(process_image(&[]), Err(GalleryError::Decode));
    let mut truncated = encoded(&gradient(64, 64), image::ImageFormat::Png);
    truncated.truncate(40);
    assert_eq!(process_image(&truncated), Err(GalleryError::Decode));
    assert!(SourceImage::decode(b"GIF89a").is_err());
}

#[test]
fn every_format_of_the_library_is_recognised_and_decoded() {
    let formats = [
        image::ImageFormat::Png,
        image::ImageFormat::Jpeg,
        image::ImageFormat::Gif,
        image::ImageFormat::WebP,
        image::ImageFormat::Tiff,
        image::ImageFormat::Bmp,
        image::ImageFormat::Ico,
    ];
    for (i, format) in formats.into_iter().enumerate() {
        let (width, height) = (40 + i as u32, 30 + 2 * i as u32);
        // An icon holds its picture with an alpha channel.
        let picture = image::DynamicImage::ImageRgba8(gradient(width, height).to_rgba8());
        let bytes = encoded(&picture, format);
        assert_eq!(image::guess_format(&bytes).unwrap(), format);
        let source = SourceImage::decode(&bytes).unwrap();
        assert_eq!((source.width(), source.height()), (width, height));
        let images = process_image(&bytes).unwrap();
        assert_eq!(images.last().map(|image| (image.width, image.height)), Some((width, height)));
    }
}

#[test]
fn bytes_are_decoded_in_the_format_of_their_signature() {
    // A bitmap behind the signature of a PNG file is no PNG file.
    let mut bytes = b"\x89PNG\r\n\x1a\n".to_vec();
    bytes.extend_from_slice(&encoded(&gradient(8, 8), image::ImageFormat::Bmp));
    assert_eq!(process_image(&bytes), Err(GalleryError::Decode));
}

#[test]
fn a_format_that_the_library_does_not_read_is_a_decode_error() {
    assert_eq!(image::guess_format(b"P6\n1 1\n255\n\0\0\0").unwrap(), image::ImageFormat::Pnm);
    assert_eq!(process_image(b"P6\n1 1\n255\n\0\0\0"), Err(GalleryError::Decode));
    assert_eq!(process_image(b"qoif\0\0\0\x01\0\0\0\x01\x03\0"), Err(GalleryError::Decode));
    assert!(SourceImage::decode(b"farbfeld").is_err());
}

#[test]
fn decoding_reads_the_dimensions() {
    let source = SourceImage::decode(&encoded(&gradient(321, 123), image::ImageFormat::Png)).unwrap();
    assert_eq!((source.width(), source.height()), (321, 123));
    let source = SourceImage::decode(&encoded(&gradient(33, 77), image::ImageFormat::Jpeg)).unwrap();
    assert_eq!((source.width(), source.height()), (33, 77));
}

#[test]
fn a_derivative_that_scales_to_nothing_is_an_encode_error() {
    // 7 * 200 / 3000 rounds to a height of zero pixels.
    let source = encoded(&gradient(3000, 7), image::ImageFormat::Png);
    assert_eq!(process_image(&source), Err(GalleryError::Encode { tier: Tier::Thumbnail }));
}

#[test]
fn an_alpha_channel_is_dropped_by_the_jpeg_encoding() {
    let pixels = image::RgbaImage::from_fn(300, 150, |x, y| image::Rgba([x as u8, y as u8, 7, 128]));
    let source = encoded(&image::DynamicImage::ImageRgba8(pixels), image::ImageFormat::Png);
    let images = process_image(&source).unwrap();
    assert_eq!(
        shape(&images),
        vec![("thumbnail".to_string(), 200, 100), ("original".to_string(), 300, 150)]
    );
    for image in &images {
        assert_is_jpeg_of_recorded_size(image);
    }
}

#[test]
fn one_derivative_is_resampled_to_its_plan() {
    let source = SourceImage::decode(&encoded(&gradient(900, 300), image::ImageFormat::Png)).unwrap();
    let small = resize_and_compress(&source, Tier::Small).unwrap();
    assert_eq!((small.size_name.as_str(), small.width, small.height), ("small", 640, 213));
    assert_is_jpeg_of_recorded_size(&small);
    let original = resize_and_compress(&source, Tier::Original).unwrap();
    assert_eq!((original.size_name.as_str(), original.width, original.height), ("original", 900, 300));
    assert_is_jpeg_of_recorded_size(&original);
}

#[test]
fn a_tier_is_produced_on_request_even_where_it_does_not_apply() {
    let source = SourceImage::decode(&encoded(&gradient(90, 30), image::ImageFormat::Png)).unwrap();
    let large = resize_and_compress(&source, Tier::Large).unwrap();
    assert_eq!((large.size_name.as_str(), large.width, large.height), ("large", 1920, 640));
    assert_eq!(header_size(&large.data), (image::ImageFormat::Jpeg, 1920, 640));
}

#[test]
fn a_side_beyond_the_reach_of_jpeg_is_an_encode_error() {
    let flat = image::GrayImage::from_pixel(70000, 1, image::Luma([90]));
    let bytes = encoded(&image::DynamicImage::ImageLuma8(flat), image::ImageFormat::Png);
    let source = SourceImage::decode(&bytes).unwrap();
    assert_eq!((source.width(), source.height()), (70000, 1));
    assert_eq!(resize_and_compress(&source, Tier::Original), Err(GalleryError::Encode { tier: Tier::Original }));
    assert_eq!(generate(&source), Err(GalleryError::Encode { tier: Tier::Thumbnail }));
    let flat = image::GrayImage::from_pixel(65535, 1, image::Luma([90]));
    let bytes = encoded(&image::DynamicImage::ImageLuma8(flat), image::ImageFormat::Png);
    let source = SourceImage::decode(&bytes).unwrap();
    let original = resize_and_compress(&source, Tier::Original).unwrap();
    assert_eq!(header_size(&original.data), (image::ImageFormat::Jpeg, 65535, 1));
}

#[test]
fn an_encoder_failure_is_an_encode_error_for_the_tier() {
    let plan = DerivativePlan { tier: Tier::Small, width: 640, height: 427 };
    let refused = image::ImageError::IoError(std::io::Error::other("refused"));
    assert_eq!(finish_derivative(plan, Err(refused)), Err(GalleryError::Encode { tier: Tier::Small }));
    assert_eq!(
        finish_derivative(plan, Ok(vec![9, 8])),
        Ok(CompressedImage { size_name: "small".to_string(), data: vec![9, 8], width: 640, height: 427 })
    );
}

fn jpeg_at(picture: &image::DynamicImage, quality: u8) -> Vec<u8> {
    let mut bytes = Vec::new();
    let encoder = image::codecs::jpeg::JpegEncoder::new_with_quality(Cursor::new(&mut bytes), quality);
    picture.write_with_encoder(encoder).unwrap();
    bytes
}

#[test]
fn each_tier_is_encoded_at_its_quality() {
    let picture = gradient(700, 500);
    let source = SourceImage::decode(&encoded(&picture, image::ImageFormat::Png)).unwrap();
    let images = generate(&source).unwrap();
    assert_eq!(images.len(), 3);
    let filter = image::imageops::FilterType::Lanczos3;
    assert_eq!(images[0].data, jpeg_at(&picture.resize_exact(200, 143, filter), 85));
    assert_eq!(images[1].data, jpeg_at(&picture.resize_exact(640, 457, filter), 85));
    assert_eq!(images[2].data, jpeg_at(&picture, 92));
    assert_ne!(images[2].data, jpeg_at(&picture, 75));
    assert_ne!(images[0].data, jpeg_at(&picture.resize_exact(200, 143, filter), 92));
}

#[test]
fn the_large_and_medium_tiers_have_their_own_qualities() {
    let picture = gradient(1930, 20);
    let source = SourceImage::decode(&encoded(&picture, image::ImageFormat::Png)).unwrap();
    let filter = image::imageops::FilterType::Lanczos3;
    assert_eq!(
        resize_and_compress(&source, Tier::Medium).unwrap().data,
        jpeg_at(&picture.resize_exact(1280, 13, filter), 90)
    );
    assert_eq!(
        resize_and_compress(&source, Tier::Large).unwrap().data,
        jpeg_at(&picture.resize_exact(1920, 20, filter), 92)
    );
}

#[test]
fn a_derivative_follows_its_plan() {
    let plan = DerivativePlan { tier: Tier::Medium, width: 1280, height: 853 };
    let image = CompressedImage::from_plan(plan, vec![1, 2, 3]);
    assert_eq!(
        image,
        CompressedImage { size_name: "medium".to_string(), data: vec![1, 2, 3], width: 1280, height: 853 }
    );
}
