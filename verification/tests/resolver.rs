use gi_image::error::ImageError;
use gi_image::format::ImageFormat;
use gi_image::resolve::resolve;

#[test]
fn resolve_no_dot_is_missing_extension() {
    assert_eq!(resolve("icon").unwrap_err(), ImageError::MissingExtension);
}

#[test]
fn resolve_missing_extension_shapes() {
    for path in ["", "dir/file", ".gitignore", "a/.hidden", "file.", "dir.v2/file"] {
        assert_eq!(
            resolve(path).unwrap_err(),
            ImageError::MissingExtension,
            "path {:?}",
            path
        );
    }
}

#[test]
fn resolve_unknown_extension_is_unsupported() {
    for path in ["file.xyz", "notes.txt", "archive.tar.gz", "image.png.bak"] {
        assert_eq!(
            resolve(path).unwrap_err(),
            ImageError::UnsupportedFormat,
            "path {:?}",
            path
        );
    }
}

#[test]
fn resolve_supported_table() {
    let cases = [
        ("a.jpg", "jpg", ImageFormat::Jpeg),
        ("a.jpeg", "jpeg", ImageFormat::Jpeg),
        ("a.png", "png", ImageFormat::Png),
        ("a.gif", "gif", ImageFormat::Gif),
        ("a.bmp", "bmp", ImageFormat::Bmp),
        ("a.webp", "webp", ImageFormat::WebP),
    ];
    for (path, ext, format) in cases {
        let r = resolve(path).unwrap();
        assert_eq!(r.extension, ext);
        assert_eq!(r.format, format);
    }
}

#[test]
fn resolve_lower_cases_the_extension() {
    let r = resolve("PHOTO.JPG").unwrap();
    assert_eq!(r.extension, "jpg");
    assert_eq!(r.format, ImageFormat::Jpeg);

    let r = resolve("Img.PnG").unwrap();
    assert_eq!(r.extension, "png");
    assert_eq!(r.format, ImageFormat::Png);
}

#[test]
fn resolve_takes_the_last_dot() {
    let r = resolve("photo.backup.jpg").unwrap();
    assert_eq!(r.extension, "jpg");
    assert_eq!(r.format, ImageFormat::Jpeg);
}

#[test]
fn resolve_ignores_dots_in_directories() {
    let r = resolve("builds.v2/out.webp").unwrap();
    assert_eq!(r.extension, "webp");
    assert_eq!(r.format, ImageFormat::WebP);
}

#[test]
fn resolve_handles_multibyte_paths() {
    let r = resolve("fötos/bild.JPG").unwrap();
    assert_eq!(r.extension, "jpg");
    assert_eq!(r.format, ImageFormat::Jpeg);

    assert_eq!(
        resolve("bild.päg").unwrap_err(),
        ImageError::UnsupportedFormat
    );
    assert_eq!(resolve("ördner/bild").unwrap_err(), ImageError::MissingExtension);
}

#[test]
fn canonical_names() {
    assert_eq!(ImageFormat::Jpeg.canonical_name(), "jpeg");
    assert_eq!(ImageFormat::Png.canonical_name(), "png");
    assert_eq!(ImageFormat::Gif.canonical_name(), "gif");
    assert_eq!(ImageFormat::Bmp.canonical_name(), "bmp");
    assert_eq!(ImageFormat::WebP.canonical_name(), "webp");
}
