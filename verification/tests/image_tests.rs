use net_loginer::image::ImageError;
use net_loginer::image::resize_image;
use net_loginer::ResizeParam;

#[test]
fn fixed_height_keeps_aspect_ratio() {
    let target = ResizeParam::FixedHeight(64).get_param((320, 160));
    assert_eq!(target, (128, 64));
}

#[test]
fn fixed_width_keeps_aspect_ratio() {
    let target = ResizeParam::FixedWidth(100).get_param((50, 200));
    assert_eq!(target, (100, 400));
}

#[test]
fn derived_dimension_rounds_to_nearest() {
    // 100 * 64 / 160 = 40 exactly; 99 * 64 / 160 = 39.6 rounds to 40;
    // 98 * 64 / 160 = 39.2 rounds to 39.
    assert_eq!(ResizeParam::FixedHeight(64).get_param((100, 160)), (40, 64));
    assert_eq!(ResizeParam::FixedHeight(64).get_param((99, 160)), (40, 64));
    assert_eq!(ResizeParam::FixedHeight(64).get_param((98, 160)), (39, 64));
}

#[test]
fn fixed_size_is_taken_as_is() {
    assert_eq!(ResizeParam::FixedSize(96, 32).get_param((777, 555)), (96, 32));
}

fn sample_jpeg(width: u16, height: u16) -> Vec<u8> {
    let mut data = Vec::new();
    for y in 0..height as usize {
        for x in 0..width as usize {
            data.push((x * 31 % 256) as u8);
            data.push((y * 53 % 256) as u8);
            data.push(((x + y) * 17 % 256) as u8);
        }
    }
    let mut out = Vec::new();
    let encoder = jpeg_encoder::Encoder::new(&mut out, 95);
    encoder
        .encode(&data, width, height, jpeg_encoder::ColorType::Rgb)
        .expect("encoding a sample image succeeds");
    out
}

fn sample_gray_jpeg(width: u16, height: u16) -> Vec<u8> {
    let mut data = Vec::new();
    for y in 0..height as usize {
        for x in 0..width as usize {
            data.push(((x * 7 + y * 13) % 256) as u8);
        }
    }
    let mut out = Vec::new();
    let encoder = jpeg_encoder::Encoder::new(&mut out, 95);
    encoder
        .encode(&data, width, height, jpeg_encoder::ColorType::Luma)
        .expect("encoding a sample image succeeds");
    out
}

#[test]
fn resizes_decoded_jpeg_to_fixed_size() {
    let jpeg = sample_jpeg(16, 8);
    let (px, w, h) = resize_image(&jpeg, &ResizeParam::FixedSize(4, 4)).expect("resize succeeds");
    assert_eq!((w, h), (4, 4));
    assert_eq!(px.len(), 4 * 4 * 3);
}

#[test]
fn resizes_decoded_jpeg_by_fixed_height() {
    let jpeg = sample_jpeg(32, 16);
    let (px, w, h) =
        resize_image(&jpeg, &ResizeParam::FixedHeight(8)).expect("resize succeeds");
    assert_eq!((w, h), (16, 8));
    assert_eq!(px.len(), 16 * 8 * 3);
}

#[test]
fn grayscale_jpeg_is_expanded_to_rgb() {
    let jpeg = sample_gray_jpeg(16, 16);
    let (px, w, h) =
        resize_image(&jpeg, &ResizeParam::FixedSize(8, 8)).expect("resize succeeds");
    assert_eq!((w, h), (8, 8));
    assert_eq!(px.len(), 8 * 8 * 3);
}

#[test]
fn malformed_bytes_are_a_decode_error() {
    let junk = vec![0u8, 1, 2, 3, 4, 5];
    assert_eq!(
        resize_image(&junk, &ResizeParam::FixedSize(4, 4)),
        Err(ImageError::Decode)
    );
}

#[test]
fn zero_target_dimension_is_a_resample_error() {
    let jpeg = sample_jpeg(8, 8);
    assert_eq!(
        resize_image(&jpeg, &ResizeParam::FixedSize(0, 4)),
        Err(ImageError::Resample)
    );
}
