use gi_image::codec::decode;
use gi_image::error::{ImageError, ReadFailure};
use gi_image::metadata::{inspect_bytes, inspect_read};

/// Encodes a black RGB image of the given size in the given container
/// format, returning the file bytes.
fn encode(width: u32, height: u32, format: image::ImageFormat) -> Vec<u8> {
    let img = image::DynamicImage::ImageRgb8(image::RgbImage::new(width, height));
    let mut buf: Vec<u8> = Vec::new();
    img.write_to(&mut std::io::Cursor::new(&mut buf), format)
        .unwrap();
    buf
}

#[test]
fn pipeline_reports_true_dimensions_per_format() {
    let cases = [
        (image::ImageFormat::Png, "png", "png"),
        (image::ImageFormat::Jpeg, "jpg", "jpeg"),
        (image::ImageFormat::Gif, "gif", "gif"),
        (image::ImageFormat::Bmp, "bmp", "bmp"),
        (image::ImageFormat::WebP, "webp", "webp"),
    ];
    for (format, ext, canonical) in cases {
        let bytes = encode(3, 2, format);
        let path = format!("img.{}", ext);
        let meta = inspect_bytes(&path, &bytes).unwrap();
        assert_eq!(meta.width, 3, "format {:?}", format);
        assert_eq!(meta.height, 2, "format {:?}", format);
        assert_eq!(meta.extension, ext);
        assert_eq!(meta.format, canonical);
        assert_eq!(meta.path, path);
    }
}

#[test]
fn scenario_valid_jpeg_photo() {
    let bytes = encode(800, 600, image::ImageFormat::Jpeg);
    let meta = inspect_bytes("photo.jpg", &bytes).unwrap();
    assert_eq!(meta.path, "photo.jpg");
    assert_eq!(meta.extension, "jpg");
    assert_eq!(meta.format, "jpeg");
    assert_eq!(meta.width, 800);
    assert_eq!(meta.height, 600);
}

#[test]
fn scenario_icon_without_extension() {
    assert_eq!(
        inspect_bytes("icon", &[]).unwrap_err(),
        ImageError::MissingExtension
    );
    assert_eq!(
        inspect_read("icon", Ok(Vec::new())).unwrap_err(),
        ImageError::MissingExtension
    );
}

#[test]
fn pipeline_reports_not_found() {
    assert_eq!(
        inspect_read("missing.png", Err(ReadFailure::NotFound)).unwrap_err(),
        ImageError::NotFound
    );
}

#[test]
fn pipeline_reports_access_denied() {
    assert_eq!(
        inspect_read("locked.png", Err(ReadFailure::Unreadable)).unwrap_err(),
        ImageError::AccessDenied
    );
}

#[test]
fn resolver_error_precedes_read_error() {
    assert_eq!(
        inspect_read("icon", Err(ReadFailure::NotFound)).unwrap_err(),
        ImageError::MissingExtension
    );
    assert_eq!(
        inspect_read("file.xyz", Err(ReadFailure::NotFound)).unwrap_err(),
        ImageError::UnsupportedFormat
    );
}

#[test]
fn garbage_bytes_are_corrupt_not_a_crash() {
    let garbage = b"this is not an image at all";
    assert_eq!(
        inspect_bytes("bad.png", garbage).unwrap_err(),
        ImageError::CorruptOrUnrecognized
    );
}

#[test]
fn truncated_png_is_corrupt_not_a_crash() {
    let mut bytes = encode(3, 2, image::ImageFormat::Png);
    bytes.truncate(12);
    assert_eq!(
        inspect_bytes("cut.png", &bytes).unwrap_err(),
        ImageError::CorruptOrUnrecognized
    );
}

#[test]
fn recognized_container_without_decoder_is_unsupported_variant() {
    // An AVIF header: the codec recognizes the container but its decoder
    // for it is not compiled in.
    let mut bytes = vec![0u8, 0, 0, 24];
    bytes.extend_from_slice(b"ftypavif");
    bytes.extend_from_slice(&[0u8; 16]);
    assert_eq!(
        inspect_bytes("pic.avif", &bytes).unwrap_err(),
        ImageError::UnsupportedFormat
    );
    assert_eq!(
        inspect_bytes("pic.png", &bytes).unwrap_err(),
        ImageError::UnsupportedVariant
    );
}

#[test]
fn zero_sized_image_is_never_a_success() {
    // A farbfeld container declaring zero width and height: whether the
    // codec decodes it or rejects it, the pipeline must report malformed
    // content, never a record without pixels.
    let mut bytes = b"farbfeld".to_vec();
    bytes.extend_from_slice(&[0u8; 8]);
    assert_eq!(
        inspect_bytes("empty.png", &bytes).unwrap_err(),
        ImageError::CorruptOrUnrecognized
    );
}

#[test]
fn pipeline_is_idempotent_on_unchanged_bytes() {
    let bytes = encode(5, 7, image::ImageFormat::Png);
    let first = inspect_bytes("five.png", &bytes).unwrap();
    let second = inspect_bytes("five.png", &bytes).unwrap();
    assert_eq!(first, second);
}

#[test]
fn format_comes_from_the_codec_not_the_extension() {
    // PNG bytes under a jpg name: the extension is reported as spelled,
    // the format as the codec determined it.
    let bytes = encode(4, 4, image::ImageFormat::Png);
    let meta = inspect_bytes("photo.jpg", &bytes).unwrap();
    assert_eq!(meta.extension, "jpg");
    assert_eq!(meta.format, "png");
    assert_eq!(meta.width, 4);
    assert_eq!(meta.height, 4);
}

#[test]
fn decode_gateway_reports_dimensions() {
    let bytes = encode(9, 1, image::ImageFormat::Bmp);
    let decoded = decode(&bytes).unwrap();
    assert_eq!(decoded.width, 9);
    assert_eq!(decoded.height, 1);
    assert_eq!(decoded.container, Some(gi_image::format::ImageFormat::Bmp));
}

#[test]
fn decode_gateway_rejects_empty_input() {
    assert!(decode(&[]).is_err());
}
