use blog_upload::image_pipeline::{
    check_upload_file_name, convert_to_webp_or_jpg, keep_if_smaller, mime_or_octet_stream,
    optimize, prepare_image, resize_image_for_attachment_thumbnail, split_file_name,
    ImageFailure, UploadRejection,
};
use image::{DynamicImage, ImageFormat, RgbImage};
use sha2::{Digest, Sha256};
use std::io::Cursor;

fn picture(width: u32, height: u32) -> DynamicImage {
    let img = RgbImage::from_fn(width, height, |x, y| {
        image::Rgb([(x * 255 / width) as u8, (y * 255 / height) as u8, ((x + y) % 256) as u8])
    });
    DynamicImage::ImageRgb8(img)
}

fn encoded(img: &DynamicImage, format: ImageFormat) -> Vec<u8> {
    let mut out = Cursor::new(Vec::new());
    img.write_to(&mut out, format).unwrap();
    out.into_inner()
}

#[test]
fn thumbnail_of_a_tall_image_fills_the_box() {
    let img = picture(1000, 2000);
    let (data, tag) = resize_image_for_attachment_thumbnail(&img, (150, 150)).unwrap();
    assert_eq!(tag, "webp");
    let thumb = image::load_from_memory(&data).unwrap();
    assert_eq!((thumb.width(), thumb.height()), (150, 150));
    assert_eq!(image::guess_format(&data).unwrap(), ImageFormat::WebP);
}

#[test]
fn prepared_image_has_a_square_thumbnail() {
    let bytes = encoded(&picture(1000, 2000), ImageFormat::Png);
    let prepared = prepare_image("posts/tall.png", "tall.png", bytes, false, None).unwrap();
    let thumb = prepared.thumbnail.unwrap();
    assert_eq!(thumb.path, "/blog_upload_thumb/posts/tall.png");
    assert_eq!(thumb.mime, "image/webp");
    let decoded = image::load_from_memory(&thumb.data).unwrap();
    assert_eq!((decoded.width(), decoded.height()), (150, 150));
    assert!(prepared.response.has_thumbnail);
    assert_eq!(prepared.response.media_width, Some(1000));
    assert_eq!(prepared.response.media_height, Some(2000));
}

#[test]
fn prepared_image_without_optimization_keeps_the_bytes() {
    let bytes = encoded(&picture(40, 30), ImageFormat::Png);
    let prepared = prepare_image("a/b.png", "photo.png", bytes.clone(), false, None).unwrap();
    assert_eq!(prepared.asset.data, bytes);
    assert_eq!(prepared.asset.path, "/blog_upload/a/b.png");
    assert_eq!(prepared.asset.mime, "image/png");
    assert_eq!(prepared.response.file_name, "photo");
    assert_eq!(prepared.response.file_type, "png");
    assert_eq!(prepared.response.file_size, bytes.len() as i64);
    assert_eq!(prepared.response.hash, format!("{:X}", Sha256::digest(&bytes)));
}

#[test]
fn prepared_image_digest_covers_the_stored_bytes() {
    let bytes = encoded(&picture(64, 64), ImageFormat::Png);
    let prepared = prepare_image("x", "x.png", bytes.clone(), true, None).unwrap();
    let stored = &prepared.asset.data;
    assert!(stored.len() <= bytes.len());
    assert_eq!(prepared.response.hash, format!("{:X}", Sha256::digest(stored)));
    assert_eq!(prepared.response.file_size, stored.len() as i64);
    if stored != &bytes {
        assert_eq!(prepared.response.file_type, "webp");
        assert_eq!(prepared.asset.mime, "image/webp");
    }
}

#[test]
fn explicit_dimensions_resize_and_skip_the_thumbnail() {
    let bytes = encoded(&picture(300, 200), ImageFormat::Png);
    let prepared = prepare_image("avatar", "me.png", bytes, true, Some((64, 64))).unwrap();
    assert!(prepared.thumbnail.is_none());
    assert!(!prepared.response.has_thumbnail);
    assert_eq!(prepared.response.media_width, Some(64));
    assert_eq!(prepared.response.media_height, Some(64));
    let stored = image::load_from_memory(&prepared.asset.data).unwrap();
    assert_eq!((stored.width(), stored.height()), (64, 64));
    assert_eq!(prepared.response.file_type, "webp");
}

#[test]
fn undecodable_bytes_are_a_decode_failure() {
    let junk = b"not an image at all".to_vec();
    assert!(matches!(prepare_image("p", "p.png", junk.clone(), true, None), Err(ImageFailure::Decode)));
    assert_eq!(convert_to_webp_or_jpg(junk.clone()), Err(ImageFailure::Decode));
    assert!(matches!(optimize(junk), Err(ImageFailure::Decode)));
}

#[test]
fn conversion_prefers_the_compact_format() {
    let bytes = encoded(&picture(20, 20), ImageFormat::Png);
    let out = convert_to_webp_or_jpg(bytes).unwrap();
    assert_eq!(image::guess_format(&out).unwrap(), ImageFormat::WebP);
}

#[test]
fn optimizing_twice_never_grows() {
    let bytes = encoded(&picture(120, 80), ImageFormat::Png);
    let (once, _) = optimize(bytes.clone()).unwrap();
    assert!(once.len() <= bytes.len());
    let (twice, _) = optimize(once.clone()).unwrap();
    assert!(twice.len() <= once.len());
}

#[test]
fn image_that_does_not_shrink_is_kept_as_is() {
    let webp = convert_to_webp_or_jpg(encoded(&picture(50, 50), ImageFormat::Png)).unwrap();
    let (out, kind) = optimize(webp.clone()).unwrap();
    assert_eq!(kind, None);
    assert_eq!(out, webp);
}

#[test]
fn keep_if_smaller_takes_only_a_strictly_smaller_candidate() {
    assert_eq!(keep_if_smaller(vec![1, 2, 3], vec![9, 9]), (vec![9, 9], true));
    assert_eq!(keep_if_smaller(vec![1, 2, 3], vec![9, 9, 9]), (vec![1, 2, 3], false));
    assert_eq!(keep_if_smaller(vec![1], vec![9, 9, 9]), (vec![1], false));
}

#[test]
fn file_names_split_at_the_last_dot() {
    assert_eq!(split_file_name("archive.tar.gz"), ("archive.tar".to_string(), "gz".to_string()));
    assert_eq!(split_file_name("README"), ("README".to_string(), String::new()));
    assert_eq!(split_file_name("trailing."), ("trailing".to_string(), String::new()));
}

#[test]
fn mime_comes_from_the_extension_table() {
    assert_eq!(mime_or_octet_stream("png"), "image/png");
    assert_eq!(mime_or_octet_stream("webp"), "image/webp");
    assert_eq!(mime_or_octet_stream("no-such-extension"), "application/octet-stream");
}

#[test]
fn upload_names_need_an_image_extension() {
    assert_eq!(check_upload_file_name("cat.jpg"), Ok("image/jpeg".to_string()));
    assert_eq!(check_upload_file_name("cat"), Err(UploadRejection::NoExtension));
    assert_eq!(check_upload_file_name("notes.txt"), Err(UploadRejection::UnknownFileType));
    assert_eq!(check_upload_file_name("blob.zzzz"), Err(UploadRejection::UnknownFileType));
}

#[test]
fn gif_uploads_decode() {
    let bytes = encoded(&DynamicImage::ImageRgba8(picture(16, 16).to_rgba8()), ImageFormat::Gif);
    let prepared = prepare_image("anim", "anim.gif", bytes, false, None).unwrap();
    assert_eq!(prepared.response.file_type, "gif");
    assert_eq!(prepared.response.media_width, Some(16));
}

#[test]
fn explicit_box_that_is_not_square_is_filled() {
    let bytes = encoded(&picture(300, 200), ImageFormat::Png);
    let prepared = prepare_image("banner", "b.png", bytes, false, Some((120, 40))).unwrap();
    let stored = image::load_from_memory(&prepared.asset.data).unwrap();
    assert_eq!((stored.width(), stored.height()), (120, 40));
    assert_eq!(prepared.response.media_width, Some(120));
    assert_eq!(prepared.response.media_height, Some(40));
}
