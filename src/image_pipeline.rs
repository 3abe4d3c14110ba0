//! Image normalization before upload: re-encoding to a compact format with a
//! fallback, keeping the result only when it is smaller, and thumbnails.

use crate::digest::{sha256_hex, sha256_hex_of};
use crate::paths::{get_full_file_path, get_thumb_file_path, under};
use crate::text::{chars_of, find_last, last_index_of, string_of};
use image::imageops::FilterType;
use image::{DynamicImage, ImageError, ImageFormat};
use vstd::prelude::*;
use vstd::string::StringExecFns;

verus! {

#[verifier::external_type_specification]
#[verifier::external_body]
pub struct ExDynamicImage(DynamicImage);

#[verifier::external_type_specification]
#[verifier::external_body]
pub struct ExImageError(ImageError);

/// The width of an image, in pixels.
pub uninterp spec fn width_of(img: DynamicImage) -> u32;

/// The height of an image, in pixels.
pub uninterp spec fn height_of(img: DynamicImage) -> u32;

/// The image that a byte sequence decodes to, in the format its leading bytes
/// announce; none when it does not decode.
pub uninterp spec fn decoded_of(bytes: Seq<u8>) -> Option<DynamicImage>;

/// An image scaled to cover a box and cropped to it.
pub uninterp spec fn filled_of(img: DynamicImage, width: u32, height: u32) -> DynamicImage;

/// The encoding of an image as WebP (`webp`) or as JPEG; none when the
/// encoder refuses the image.
pub uninterp spec fn encoded_as(img: DynamicImage, webp: bool) -> Option<Seq<u8>>;

/// The media type that the extension table lists first for an extension, as
/// its essence string.
pub uninterp spec fn guessed_mime(ext: Seq<char>) -> Option<Seq<char>>;

/// Relies on `DynamicImage::width`.
pub assume_specification[ DynamicImage::width ](img: &DynamicImage) -> (r: u32)
    ensures
        r == width_of(*img),
;

/// Relies on `DynamicImage::height`.
pub assume_specification[ DynamicImage::height ](img: &DynamicImage) -> (r: u32)
    ensures
        r == height_of(*img),
;

/// Whether an image and a box are non-empty, and the box's aspect stays far
/// enough from the image's that the scaled image fits `u32` sizes.
pub open spec fn fits_box(img: DynamicImage, width: u32, height: u32) -> bool {
    &&& width > 0 && height > 0 && width_of(img) > 0 && height_of(img) > 0
    &&& 2 * (width_of(img) as int) * (height as int) <= (u32::MAX as int) * (height_of(img) as int)
    &&& 2 * (height_of(img) as int) * (width as int) <= (u32::MAX as int) * (width_of(img) as int)
}

/// Relies on `image::guess_format` and `image::load_from_memory_with_format`:
/// the format is read from the leading bytes and its built-in decoder is
/// used, so the result depends on the bytes alone.
#[verifier::external_body]
fn decode_image(bytes: &[u8]) -> (r: Result<DynamicImage, ImageError>)
    ensures
        r is Ok <==> decoded_of(bytes@) is Some,
        r is Ok ==> r.unwrap() == decoded_of(bytes@).unwrap(),
{
    image::guess_format(bytes).and_then(|format| image::load_from_memory_with_format(bytes, format))
}

/// Relies on `DynamicImage::resize_to_fill` with the Lanczos3 filter: scales
/// the image to cover the box, then crops it to exactly the box.
#[verifier::external_body]
fn fill_box(img: &DynamicImage, width: u32, height: u32) -> (r: DynamicImage)
    ensures
        r == filled_of(*img, width, height),
        fits_box(*img, width, height) ==> width_of(r) == width && height_of(r) == height,
{
    img.resize_to_fill(width, height, FilterType::Lanczos3)
}

/// Relies on `DynamicImage::write_to`, into memory, in the given format.
#[verifier::external_body]
fn encode_image(img: &DynamicImage, kind: ImageKind) -> (r: Result<Vec<u8>, ImageError>)
    ensures
        r is Ok <==> encoded_as(*img, kind == ImageKind::WebP) is Some,
        r is Ok ==> r.unwrap()@ == encoded_as(*img, kind == ImageKind::WebP).unwrap(),
{
    let format = match kind {
        ImageKind::WebP => ImageFormat::WebP,
        ImageKind::Jpeg => ImageFormat::Jpeg,
    };
    let mut out = std::io::Cursor::new(Vec::new());
    img.write_to(&mut out, format).map(|_| out.into_inner())
}

/// Relies on `mime_guess::from_ext` and `MimeGuess::first`: the extension
/// table is fixed, so the answer depends on the extension alone.
#[verifier::external_body]
fn guess_mime(ext: &str) -> (r: Option<String>)
    ensures
        r is Some == guessed_mime(ext@) is Some,
        r is Some ==> r.unwrap()@ == guessed_mime(ext@).unwrap(),
{
    mime_guess::from_ext(ext).first().map(|m| m.essence_str().to_string())
}

/// The formats an image is re-encoded to: the compact one first, then the
/// universally supported one.
#[derive(Clone, Copy, Debug, PartialEq, Eq, Structural)]
pub enum ImageKind {
    WebP,
    Jpeg,
}

impl ImageKind {
    pub open spec fn spec_extension(self) -> Seq<char> {
        match self {
            ImageKind::WebP => "webp"@,
            ImageKind::Jpeg => "jpeg"@,
        }
    }

    /// The file extension, which also tags the format for the caller.
    pub fn extension(self) -> (r: &'static str)
        ensures
            r@ == self.spec_extension(),
    {
        match self {
            ImageKind::WebP => "webp",
            ImageKind::Jpeg => "jpeg",
        }
    }
}

/// Why an image could not be processed.
#[derive(Clone, Copy, Debug, PartialEq, Eq, Structural)]
pub enum ImageFailure {
    /// The bytes are not an image of a known format.
    Decode,
    /// Neither format could encode the image.
    Encode,
}

/// The compact encoding of an image: WebP when that encoder takes it, else
/// JPEG; none when neither does.
pub open spec fn compact_of(img: DynamicImage) -> Option<(Seq<u8>, ImageKind)> {
    match encoded_as(img, true) {
        Some(b) => Some((b, ImageKind::WebP)),
        None => match encoded_as(img, false) {
            Some(b) => Some((b, ImageKind::Jpeg)),
            None => None,
        },
    }
}

/// Encodes in the compact format, or in the fallback format when that fails;
/// says which one was used.
fn encode_compact(img: &DynamicImage) -> (r: Result<(Vec<u8>, ImageKind), ImageFailure>)
    ensures
        r is Ok <==> compact_of(*img) is Some,
        r is Ok ==> r.unwrap().0@ == compact_of(*img).unwrap().0 && r.unwrap().1 == compact_of(
            *img,
        ).unwrap().1,
        r is Err ==> r == Err::<(Vec<u8>, ImageKind), _>(ImageFailure::Encode),
{
    match encode_image(img, ImageKind::WebP) {
        Ok(data) => Ok((data, ImageKind::WebP)),
        Err(_) => match encode_image(img, ImageKind::Jpeg) {
            Ok(data) => Ok((data, ImageKind::Jpeg)),
            Err(_) => Err(ImageFailure::Encode),
        },
    }
}

/// Re-encodes an image in the compact format, or the fallback format.
pub fn convert_to_webp_or_jpg(value: Vec<u8>) -> (r: Result<Vec<u8>, ImageFailure>)
    ensures
        decoded_of(value@) is None ==> r == Err::<Vec<u8>, _>(ImageFailure::Decode),
        decoded_of(value@) is Some ==> {
            let c = compact_of(decoded_of(value@).unwrap());
            &&& r is Ok <==> c is Some
            &&& r is Ok ==> r.unwrap()@ == c.unwrap().0
            &&& r is Err ==> r == Err::<Vec<u8>, _>(ImageFailure::Encode)
        },
{
    match decode_image(value.as_slice()) {
        Ok(img) => match encode_compact(&img) {
            Ok((data, _)) => Ok(data),
            Err(e) => Err(e),
        },
        Err(_) => Err(ImageFailure::Decode),
    }
}

/// Fills the `(width, height)` box with the image and encodes the result,
/// compact format first; gives the tag of the format used.
pub fn resize_image_for_attachment_thumbnail(image: &DynamicImage, dimensions: (u32, u32)) -> (r:
    Result<(Vec<u8>, &'static str), ImageFailure>)
    ensures
        ({
            let filled = filled_of(*image, dimensions.0, dimensions.1);
            let c = compact_of(filled);
            &&& fits_box(*image, dimensions.0, dimensions.1) ==> width_of(filled) == dimensions.0
                && height_of(filled) == dimensions.1
            &&& r is Ok <==> c is Some
            &&& r is Ok ==> r.unwrap().0@ == c.unwrap().0 && r.unwrap().1@
                == c.unwrap().1.spec_extension()
            &&& r is Err ==> r == Err::<(Vec<u8>, &'static str), _>(ImageFailure::Encode)
        }),
{
    let resized = fill_box(image, dimensions.0, dimensions.1);
    match encode_compact(&resized) {
        Ok((data, kind)) => Ok((data, kind.extension())),
        Err(e) => Err(e),
    }
}

/// The bytes kept after an optimization attempt: the candidate only when it
/// is strictly smaller than the original.
pub open spec fn smaller_of(original: Seq<u8>, candidate: Seq<u8>) -> Seq<u8> {
    if candidate.len() < original.len() {
        candidate
    } else {
        original
    }
}

/// Keeps the optimized bytes only when they are smaller; says whether it did.
pub fn keep_if_smaller(original: Vec<u8>, candidate: Vec<u8>) -> (r: (Vec<u8>, bool))
    ensures
        r.0@ == smaller_of(original@, candidate@),
        r.1 == (candidate@.len() < original@.len()),
{
    if candidate.len() < original.len() {
        (candidate, true)
    } else {
        (original, false)
    }
}

/// What optimizing `bytes` gives: the compact re-encoding of the image they
/// decode to, with its format, when it is smaller; else the bytes themselves.
/// None when the bytes do not decode or no encoder takes the image.
pub open spec fn optimized_of(bytes: Seq<u8>) -> Option<(Seq<u8>, Option<ImageKind>)> {
    match decoded_of(bytes) {
        None => None,
        Some(img) => match compact_of(img) {
            None => None,
            Some((c, k)) => if c.len() < bytes.len() {
                Some((c, Some(k)))
            } else {
                Some((bytes, None))
            },
        },
    }
}

fn optimize_decoded(bytes: Vec<u8>, img: &DynamicImage) -> (r: Result<
    (Vec<u8>, Option<ImageKind>),
    ImageFailure,
>)
    requires
        decoded_of(bytes@) == Some(*img),
    ensures
        r is Ok <==> optimized_of(bytes@) is Some,
        r is Ok ==> r.unwrap().0@ == optimized_of(bytes@).unwrap().0 && r.unwrap().1
            == optimized_of(bytes@).unwrap().1,
        r is Err ==> r == Err::<(Vec<u8>, Option<ImageKind>), _>(ImageFailure::Encode),
{
    match encode_compact(img) {
        Ok((candidate, kind)) => {
            let (kept, smaller) = keep_if_smaller(bytes, candidate);
            if smaller {
                Ok((kept, Some(kind)))
            } else {
                Ok((kept, None))
            }
        },
        Err(e) => Err(e),
    }
}

/// Re-encodes an image compactly and keeps the result only when it is
/// smaller; gives the format used when the re-encoding was kept.
pub fn optimize(bytes: Vec<u8>) -> (r: Result<(Vec<u8>, Option<ImageKind>), ImageFailure>)
    ensures
        decoded_of(bytes@) is None ==> r == Err::<(Vec<u8>, Option<ImageKind>), _>(
            ImageFailure::Decode,
        ),
        decoded_of(bytes@) is Some ==> (r is Ok <==> optimized_of(bytes@) is Some),
        decoded_of(bytes@) is Some && r is Err ==> r == Err::<(Vec<u8>, Option<ImageKind>), _>(
            ImageFailure::Encode,
        ),
        r is Ok ==> r.unwrap().0@ == optimized_of(bytes@).unwrap().0 && r.unwrap().1
            == optimized_of(bytes@).unwrap().1,
{
    let img = match decode_image(bytes.as_slice()) {
        Ok(img) => img,
        Err(_) => {
            return Err(ImageFailure::Decode);
        },
    };
    optimize_decoded(bytes, &img)
}

/// Optimization never makes content larger, so optimizing the result of an
/// optimization never makes it larger either; content that does not shrink
/// is kept as it is.
pub proof fn lemma_optimize_never_grows(bytes: Seq<u8>)
    ensures
        optimized_of(bytes) is Some ==> optimized_of(bytes).unwrap().0.len() <= bytes.len(),
        optimized_of(bytes) is Some && optimized_of(optimized_of(bytes).unwrap().0) is Some
            ==> optimized_of(optimized_of(bytes).unwrap().0).unwrap().0.len() <= optimized_of(
            bytes,
        ).unwrap().0.len(),
        optimized_of(bytes) is Some && optimized_of(bytes).unwrap().1 is None
            ==> optimized_of(bytes).unwrap().0 == bytes,
{
}

/// The part of a file name before its last dot; the whole name when it has
/// no dot.
pub open spec fn base_name(name: Seq<char>) -> Seq<char> {
    let i = last_index_of(name, '.');
    if i < 0 {
        name
    } else {
        name.take(i)
    }
}

/// The part of a file name after its last dot; empty when it has no dot.
pub open spec fn extension_of(name: Seq<char>) -> Seq<char> {
    let i = last_index_of(name, '.');
    if i < 0 {
        Seq::empty()
    } else {
        name.skip(i + 1)
    }
}

/// Splits a file name at its last dot into the name and the extension.
pub fn split_file_name(full_file_name: &str) -> (r: (String, String))
    ensures
        r.0@ == base_name(full_file_name@),
        r.1@ == extension_of(full_file_name@),
        last_index_of(full_file_name@, '.') < 0 <==> r.1@.len() == 0 && r.0@
            == full_file_name@,
{
    let chars = chars_of(full_file_name);
    proof {
        lemma_last_index_bounds(chars@, '.');
    }
    match find_last(&chars, '.') {
        Some(i) => {
            assert(i < chars.len());
            let name = string_of(&chars, 0, i);
            let ext = string_of(&chars, i + 1, chars.len());
            proof {
                assert(chars@.subrange(0, i as int) =~= chars@.take(i as int));
                assert(chars@.subrange(i + 1, chars@.len() as int) =~= chars@.skip(i + 1));
            }
            (name, ext)
        },
        None => (String::from_str(full_file_name), String::new()),
    }
}

proof fn lemma_last_index_bounds(s: Seq<char>, c: char)
    ensures
        -1 <= last_index_of(s, c) < s.len(),
        last_index_of(s, c) >= 0 ==> s[last_index_of(s, c)] == c,
    decreases s.len(),
{
    if s.len() > 0 && s.last() != c {
        lemma_last_index_bounds(s.drop_last(), c);
    }
}

/// The media type stored for an extension: the listed one, else a generic
/// binary type.
pub open spec fn stored_mime(ext: Seq<char>) -> Seq<char> {
    match guessed_mime(ext) {
        Some(m) => m,
        None => "application/octet-stream"@,
    }
}

/// The media type under which content with this extension is stored.
pub fn mime_or_octet_stream(ext: &str) -> (r: String)
    ensures
        r@ == stored_mime(ext@),
{
    match guess_mime(ext) {
        Some(m) => m,
        None => String::from_str("application/octet-stream"),
    }
}

/// The media type an upload is taken for: the listed one, else plain text.
pub open spec fn upload_mime(ext: Seq<char>) -> Seq<char> {
    match guessed_mime(ext) {
        Some(m) => m,
        None => "text/plain"@,
    }
}

/// Whether a media type's top-level type is `image`.
pub open spec fn is_image_mime(mime: Seq<char>) -> bool {
    mime.len() >= 6 && mime.take(6) == "image/"@
}

/// Why an upload was refused before any work on its content.
#[derive(Clone, Copy, Debug, PartialEq, Eq, Structural)]
pub enum UploadRejection {
    /// The file name has no dot, so no extension to take the type from.
    NoExtension,
    /// The extension is not that of an image.
    UnknownFileType,
}

fn starts_with_image(mime: &String) -> (r: bool)
    ensures
        r == is_image_mime(mime@),
{
    let chars = chars_of(mime.as_str());
    let prefix = chars_of("image/");
    proof {
        reveal_strlit("image/");
        assert(prefix@.len() == 6);
    }
    if chars.len() < 6 {
        return false;
    }
    let mut i: usize = 0;
    while i < 6
        invariant
            i <= 6,
            chars@.len() >= 6,
            prefix@ == "image/"@,
            prefix@.len() == 6,
            chars@ == mime@,
            chars@.take(i as int) == prefix@.take(i as int),
        decreases 6 - i,
    {
        if chars[i] != prefix[i] {
            proof {
                assert(prefix@.take(6) =~= prefix@);
                assert(chars@.take(6)[i as int] != prefix@[i as int]);
                assert(chars@.take(6) != prefix@);

            }
            return false;
        }
        i = i + 1;
        proof {
            assert(chars@.take(i as int) =~= prefix@.take(i as int));
        }
    }
    proof {
        assert(prefix@.take(6) =~= prefix@);
    }
    true
}

/// Accepts an upload by its file name: it needs an extension whose media
/// type is an image. Gives the media type.
pub fn check_upload_file_name(file_name: &str) -> (r: Result<String, UploadRejection>)
    ensures
        last_index_of(file_name@, '.') < 0 ==> r == Err::<String, _>(UploadRejection::NoExtension),
        last_index_of(file_name@, '.') >= 0 && !is_image_mime(upload_mime(extension_of(file_name@)))
            ==> r == Err::<String, _>(UploadRejection::UnknownFileType),
        last_index_of(file_name@, '.') >= 0 && is_image_mime(upload_mime(extension_of(file_name@)))
            ==> r is Ok && r.unwrap()@ == upload_mime(extension_of(file_name@)),
{
    let chars = chars_of(file_name);
    if find_last(&chars, '.').is_none() {
        return Err(UploadRejection::NoExtension);
    }
    let (_, ext) = split_file_name(file_name);
    let mime = match guess_mime(ext.as_str()) {
        Some(m) => m,
        None => String::from_str("text/plain"),
    };
    if starts_with_image(&mime) {
        Ok(mime)
    } else {
        Err(UploadRejection::UnknownFileType)
    }
}

/// What the caller learns of a stored asset.
pub struct UploadResponse {
    pub file_name: String,
    pub file_type: String,
    pub file_size: i64,
    pub media_width: Option<i32>,
    pub media_height: Option<i32>,
    pub hash: String,
    pub has_thumbnail: bool,
}

/// Content to hand to the storage client under a destination path.
pub struct StoredObject {
    pub path: String,
    pub mime: String,
    pub data: Vec<u8>,
}

/// The uploads an image turns into, and the response once they are done.
pub struct PreparedImage {
    pub asset: StoredObject,
    pub thumbnail: Option<StoredObject>,
    pub response: UploadResponse,
}

/// Side, in pixels, of the square box thumbnails fill.
pub const THUMBNAIL_SIZE: u32 = 150;

/// Whether a tag names one of the two output formats.
pub open spec fn is_output_format(tag: Seq<char>) -> bool {
    tag == ImageKind::WebP.spec_extension() || tag == ImageKind::Jpeg.spec_extension()
}

/// A pixel size as reported, when it fits an `i32`.
pub open spec fn opt_i32(v: u32) -> Option<i32> {
    if v <= i32::MAX {
        Some(v as i32)
    } else {
        None
    }
}

/// The full-size asset an image turns into: its bytes, the format it was
/// re-encoded to (none when the bytes are stored as given) and the image it
/// shows. None when no encoder takes the image.
pub open spec fn asset_of(
    original: Seq<u8>,
    img: DynamicImage,
    should_optimize: bool,
    set_dimensions: Option<(u32, u32)>,
) -> Option<(Seq<u8>, Option<ImageKind>, DynamicImage)> {
    match set_dimensions {
        Some((w, h)) => {
            let filled = filled_of(img, w, h);
            match compact_of(filled) {
                Some((b, k)) => Some((b, Some(k), filled)),
                None => None,
            }
        },
        None => if should_optimize {
            match compact_of(img) {
                Some((c, k)) => if c.len() < original.len() {
                    Some((c, Some(k), img))
                } else {
                    Some((original, None, img))
                },
                None => None,
            }
        } else {
            Some((original, None, img))
        },
    }
}

/// The thumbnail of an image: filled into the `THUMBNAIL_SIZE` square, then
/// encoded compactly.
pub open spec fn thumbnail_of(img: DynamicImage) -> Option<(Seq<u8>, ImageKind)> {
    compact_of(filled_of(img, THUMBNAIL_SIZE, THUMBNAIL_SIZE))
}

/// Whether an image that decodes can be prepared: its asset, and its
/// thumbnail when one is made, can be encoded.
pub open spec fn can_prepare(
    original: Seq<u8>,
    img: DynamicImage,
    should_optimize: bool,
    set_dimensions: Option<(u32, u32)>,
) -> bool {
    &&& asset_of(original, img, should_optimize, set_dimensions) is Some
    &&& set_dimensions is None ==> thumbnail_of(img) is Some
}

/// What holds of the uploads prepared for the image `img` decoded from
/// `original`.
pub open spec fn prepared_for(
    store_path: Seq<char>,
    full_file_name: Seq<char>,
    original: Seq<u8>,
    img: DynamicImage,
    should_optimize: bool,
    set_dimensions: Option<(u32, u32)>,
    p: PreparedImage,
) -> bool {
    let (data, kind, shown) = asset_of(original, img, should_optimize, set_dimensions).unwrap();
    let file_type = p.response.file_type@;
    &&& p.asset.data@ == data
    &&& file_type == match kind {
        Some(k) => k.spec_extension(),
        None => extension_of(full_file_name),
    }
    &&& p.asset.path@ == under("/blog_upload/"@, store_path)
    &&& p.asset.mime@ == stored_mime(file_type)
    &&& p.response.hash@ == sha256_hex_of(data)
    &&& data.len() <= i64::MAX ==> p.response.file_size as int == data.len()
    &&& p.response.file_name@ == base_name(full_file_name)
    &&& p.response.media_width == opt_i32(width_of(shown))
    &&& p.response.media_height == opt_i32(height_of(shown))
    &&& match set_dimensions {
        Some((w, h)) => fits_box(img, w, h) ==> width_of(shown) == w && height_of(shown) == h,
        None => shown == img,
    }
    &&& p.response.has_thumbnail == (set_dimensions is None)
    &&& (p.thumbnail is Some) == (set_dimensions is None)
    &&& p.thumbnail is Some ==> {
        let t = p.thumbnail.unwrap();
        let (thumb, thumb_kind) = thumbnail_of(img).unwrap();
        let filled = filled_of(img, THUMBNAIL_SIZE, THUMBNAIL_SIZE);
        &&& t.path@ == under("/blog_upload_thumb/"@, store_path)
        &&& t.data@ == thumb
        &&& t.mime@ == stored_mime(thumb_kind.spec_extension())
        &&& fits_box(img, THUMBNAIL_SIZE, THUMBNAIL_SIZE) ==> width_of(filled) == THUMBNAIL_SIZE
            && height_of(filled) == THUMBNAIL_SIZE
    }
}

fn size_as_i64(n: usize) -> (r: i64)
    ensures
        n <= i64::MAX ==> r as int == n as int,
{
    if n as u64 <= i64::MAX as u64 {
        n as i64
    } else {
        i64::MAX
    }
}


fn to_i32(v: u32) -> (r: Option<i32>)
    ensures
        r == opt_i32(v),
{
    if v <= i32::MAX as u32 {
        Some(v as i32)
    } else {
        None
    }
}

/// Turns an image into the uploads to make: the asset, optimized when asked
/// and smaller, or filled into `set_dimensions` when given; and, without
/// `set_dimensions`, a thumbnail of `THUMBNAIL_SIZE` square. The digest and
/// size describe the bytes that are stored.
pub fn prepare_image(
    store_path: &str,
    full_file_name: &str,
    image_original_u8: Vec<u8>,
    should_optimize: bool,
    set_dimensions: Option<(u32, u32)>,
) -> (r: Result<PreparedImage, ImageFailure>)
    ensures
        decoded_of(image_original_u8@) is None ==> r == Err::<PreparedImage, _>(
            ImageFailure::Decode,
        ),
        decoded_of(image_original_u8@) is Some ==> {
            let img = decoded_of(image_original_u8@).unwrap();
            &&& r is Ok <==> can_prepare(image_original_u8@, img, should_optimize, set_dimensions)
            &&& r is Err ==> r == Err::<PreparedImage, _>(ImageFailure::Encode)
            &&& r is Ok ==> prepared_for(
                store_path@,
                full_file_name@,
                image_original_u8@,
                img,
                should_optimize,
                set_dimensions,
                r.unwrap(),
            )
        },
{
    let (file_name, extension) = split_file_name(full_file_name);
    let img = match decode_image(image_original_u8.as_slice()) {
        Ok(img) => img,
        Err(_) => {
            return Err(ImageFailure::Decode);
        },
    };
    let (data, file_type, width, height) = match set_dimensions {
        Some((w, h)) => {
            let resized = fill_box(&img, w, h);
            let (data, kind) = match encode_compact(&resized) {
                Ok(v) => v,
                Err(e) => {
                    return Err(e);
                },
            };
            (data, String::from_str(kind.extension()), resized.width(), resized.height())
        },
        None => {
            if should_optimize {
                let (kept, kind) = match optimize_decoded(image_original_u8, &img) {
                    Ok(v) => v,
                    Err(e) => {
                        return Err(e);
                    },
                };
                let file_type = match kind {
                    Some(k) => String::from_str(k.extension()),
                    None => extension,
                };
                (kept, file_type, img.width(), img.height())
            } else {
                (image_original_u8, extension, img.width(), img.height())
            }
        },
    };
    let thumbnail = if set_dimensions.is_none() {
        let (thumb_data, tag) = match resize_image_for_attachment_thumbnail(
            &img,
            (THUMBNAIL_SIZE, THUMBNAIL_SIZE),
        ) {
            Ok(v) => v,
            Err(e) => {
                return Err(e);
            },
        };
        let mime = mime_or_octet_stream(tag);
        Some(StoredObject { path: get_thumb_file_path(store_path), mime, data: thumb_data })
    } else {
        None
    };
    let hash = sha256_hex(data.as_slice());
    let file_size = size_as_i64(data.len());
    let mime = mime_or_octet_stream(file_type.as_str());
    let response = UploadResponse {
        file_name,
        file_type,
        file_size,
        media_width: to_i32(width),
        media_height: to_i32(height),
        hash,
        has_thumbnail: set_dimensions.is_none(),
    };
    Ok(PreparedImage {
        asset: StoredObject { path: get_full_file_path(store_path), mime, data },
        thumbnail,
        response,
    })
}

} // verus!
