//! Clipboard images: the file that is shared, the thumbnail that goes with
//! it, and images that arrive from other devices.

use vstd::prelude::*;
use vstd::string::*;
use crate::capture::{MAX_FILE_BYTES, MAX_IMAGE_PIXELS};
use crate::crypto::{base64_encode, base64_standard, sha256, tagged_hex};
use crate::hex::{decimal, decimal_text};
use crate::path::{path_extension, path_extension_spec};

verus! {

broadcast use vstd::string::group_string_axioms;

/// RGBA pixels of an image decoded from `bytes` (any format the `image`
/// crate knows): width, height and four bytes per pixel.
pub uninterp spec fn decoded_rgba(bytes: Seq<u8>) -> Option<(u32, u32, Seq<u8>)>;

/// The JPEG, at `quality`, of the image scaled down to fit in `box_width`
/// by `box_height` pixels (its aspect ratio kept); `None` when the pixels do
/// not make a `width` by `height` RGBA image or encoding fails.
pub uninterp spec fn thumbnail_jpeg(
    width: u32,
    height: u32,
    rgba: Seq<u8>,
    box_width: u32,
    box_height: u32,
    quality: u8,
) -> Option<Seq<u8>>;

/// The PNG encoding of the image.
pub uninterp spec fn png_bytes(width: u32, height: u32, rgba: Seq<u8>) -> Option<Seq<u8>>;

/// A decoded image.
pub struct Rgba {
    pub width: u32,
    pub height: u32,
    pub pixels: Vec<u8>,
}

/// Calls `image::load_from_memory` and `DynamicImage::to_rgba8`. Claimed: the
/// result is the named `decoded_rgba` of `bytes`.
#[verifier::external_body]
pub(crate) fn decode_image(bytes: &[u8]) -> (r: Option<Rgba>)
    ensures
        match decoded_rgba(bytes@) {
            Some(t) => r matches Some(i) && i.width == t.0 && i.height == t.1 && i.pixels@ == t.2,
            None => r is None,
        },
{
    let image = image::load_from_memory(bytes).ok()?.to_rgba8();
    Some(Rgba { width: image.width(), height: image.height(), pixels: image.into_raw() })
}

/// Calls `RgbaImage::from_raw`, `DynamicImage::thumbnail(box_width,
/// box_height)`, `to_rgb8` and `JpegEncoder::new_with_quality(.., quality)
/// .encode_image`. Claimed: the result is the named `thumbnail_jpeg` of all
/// six arguments.
#[verifier::external_body]
fn encode_thumbnail(
    width: u32,
    height: u32,
    rgba: &[u8],
    box_width: u32,
    box_height: u32,
    quality: u8,
) -> (r: Option<Vec<u8>>)
    ensures
        match thumbnail_jpeg(width, height, rgba@, box_width, box_height, quality) {
            Some(t) => r matches Some(v) && v@ == t,
            None => r is None,
        },
{
    let image = image::RgbaImage::from_raw(width, height, rgba.to_vec())?;
    let small = image::DynamicImage::ImageRgba8(image).thumbnail(box_width, box_height).to_rgb8();
    let mut bytes = Vec::new();
    image::codecs::jpeg::JpegEncoder::new_with_quality(&mut bytes, quality).encode_image(&small).ok()?;
    Some(bytes)
}

/// Calls `RgbaImage::from_raw` and `DynamicImage::write_to` with the PNG
/// format. Claimed: the result is the named `png_bytes`.
#[verifier::external_body]
fn encode_png(width: u32, height: u32, rgba: &[u8]) -> (r: Option<Vec<u8>>)
    ensures
        match png_bytes(width, height, rgba@) {
            Some(t) => r matches Some(v) && v@ == t,
            None => r is None,
        },
{
    let image = image::RgbaImage::from_raw(width, height, rgba.to_vec())?;
    let mut cursor = std::io::Cursor::new(Vec::new());
    image::DynamicImage::ImageRgba8(image).write_to(&mut cursor, image::ImageFormat::Png).ok()?;
    Some(cursor.into_inner())
}

/// Thumbnails fit in a square of this many pixels.
pub const THUMBNAIL_BOX: u32 = 256;

/// JPEG quality of thumbnails.
pub const THUMBNAIL_QUALITY: u8 = 72;

/// Largest thumbnail that is attached to a capture, in bytes.
pub const MAX_THUMBNAIL_BYTES: usize = 256 * 1024;

/// The Base64 thumbnail attached to an image capture: none for an image of
/// more than 50 million pixels, when encoding fails, or when it is larger
/// than `MAX_THUMBNAIL_BYTES`.
pub open spec fn thumbnail_spec(width: u32, height: u32, rgba: Seq<u8>) -> Option<Seq<char>> {
    if width * height > MAX_IMAGE_PIXELS {
        None
    } else {
        match thumbnail_jpeg(width, height, rgba, THUMBNAIL_BOX, THUMBNAIL_BOX, THUMBNAIL_QUALITY) {
            Some(j) => if j.len() <= MAX_THUMBNAIL_BYTES {
                Some(base64_standard(j))
            } else {
                None
            },
            None => None,
        }
    }
}

pub fn thumbnail_base64(width: u32, height: u32, rgba: &[u8]) -> (r: Option<String>)
    ensures
        match thumbnail_spec(width, height, rgba@) {
            Some(t) => r matches Some(s) && s@ == t,
            None => r is None,
        },
{
    let w = width as u64;
    let h = height as u64;
    assert(w * h <= 0xffff_ffff_ffff_ffff) by (nonlinear_arith)
        requires
            w <= 0xffff_ffff,
            h <= 0xffff_ffff,
    ;
    let pixels = w * h;
    if pixels > MAX_IMAGE_PIXELS as u64 {
        return None;
    }
    match encode_thumbnail(width, height, rgba, THUMBNAIL_BOX, THUMBNAIL_BOX, THUMBNAIL_QUALITY) {
        Some(j) => {
            if j.len() <= MAX_THUMBNAIL_BYTES {
                Some(base64_encode(j.as_slice()))
            } else {
                None
            }
        },
        None => None,
    }
}

/// A copied image file decoded as the format its extension names (any
/// case): its width and height, and the JPEG, at `quality`, of the image
/// scaled down in its own colour type to fit in `box_width` by `box_height`
/// (`None` when encoding fails); `None` when the extension names no format
/// or the bytes do not decode as it.
pub uninterp spec fn file_image_thumbnail(
    bytes: Seq<u8>,
    ext: Seq<char>,
    box_width: u32,
    box_height: u32,
    quality: u8,
) -> Option<(u32, u32, Option<Seq<u8>>)>;

/// Calls `ImageFormat::from_extension(ext)`, `load_from_memory_with_format`,
/// `DynamicImage::thumbnail(box_width, box_height)`, `to_rgb8` and
/// `JpegEncoder::new_with_quality(.., quality).encode_image`. Claimed: the
/// result is the named `file_image_thumbnail` of all five arguments.
#[verifier::external_body]
fn thumbnail_of_file(bytes: &[u8], ext: &str, box_width: u32, box_height: u32, quality: u8) -> (r:
    Option<(u32, u32, Option<Vec<u8>>)>)
    ensures
        match file_image_thumbnail(bytes@, ext@, box_width, box_height, quality) {
            Some(t) => r matches Some(v) && v.0 == t.0 && v.1 == t.1 && match t.2 {
                Some(j) => v.2 matches Some(x) && x@ == j,
                None => v.2 is None,
            },
            None => r is None,
        },
{
    let format = image::ImageFormat::from_extension(ext)?;
    let image = image::load_from_memory_with_format(bytes, format).ok()?;
    let small = image.thumbnail(box_width, box_height).to_rgb8();
    let mut jpeg = Vec::new();
    let encoded = image::codecs::jpeg::JpegEncoder::new_with_quality(&mut jpeg, quality)
        .encode_image(&small)
        .is_ok();
    Some((image.width(), image.height(), encoded.then_some(jpeg)))
}

/// The Base64 thumbnail of a copied image file at `path`: decoded by its
/// extension; none for an image of more than 50 million pixels, when it does
/// not decode or encode, or when the JPEG is larger than `MAX_THUMBNAIL_BYTES`.
pub open spec fn file_thumbnail_spec(bytes: Seq<u8>, path: Seq<char>, windows: bool) -> Option<Seq<char>> {
    match path_extension_spec(path, windows) {
        None => None,
        Some(e) => match file_image_thumbnail(bytes, e, THUMBNAIL_BOX, THUMBNAIL_BOX, THUMBNAIL_QUALITY) {
            None => None,
            Some(t) => if t.0 * t.1 > MAX_IMAGE_PIXELS {
                None
            } else {
                match t.2 {
                    Some(j) => if j.len() <= MAX_THUMBNAIL_BYTES {
                        Some(base64_standard(j))
                    } else {
                        None
                    },
                    None => None,
                }
            },
        },
    }
}

pub fn file_thumbnail_base64(bytes: &[u8], path: &str, windows: bool) -> (r: Option<String>)
    ensures
        match file_thumbnail_spec(bytes@, path@, windows) {
            Some(t) => r matches Some(s) && s@ == t,
            None => r is None,
        },
{
    let ext = match path_extension(path, windows) {
        Some(e) => e,
        None => {
            return None;
        },
    };
    let (width, height, jpeg) = match thumbnail_of_file(
        bytes,
        ext.as_str(),
        THUMBNAIL_BOX,
        THUMBNAIL_BOX,
        THUMBNAIL_QUALITY,
    ) {
        Some(t) => t,
        None => {
            return None;
        },
    };
    let w = width as u64;
    let h = height as u64;
    assert(w * h <= 0xffff_ffff_ffff_ffff) by (nonlinear_arith)
        requires
            w <= 0xffff_ffff,
            h <= 0xffff_ffff,
    ;
    if w * h > MAX_IMAGE_PIXELS as u64 {
        return None;
    }
    match jpeg {
        Some(j) => {
            if j.len() <= MAX_THUMBNAIL_BYTES {
                Some(base64_encode(j.as_slice()))
            } else {
                None
            }
        },
        None => None,
    }
}

/// The PNG file of a clipboard image; it must be 1 byte up to the file limit.
pub fn image_file_bytes(width: u32, height: u32, rgba: &[u8]) -> (r: Result<Vec<u8>, String>)
    ensures
        png_bytes(width, height, rgba@) is None ==> (r matches Err(e) && e@ == "이미지를 준비할 수 없습니다."@),
        png_bytes(width, height, rgba@) matches Some(p) ==> if p.len() == 0 || p.len() > MAX_FILE_BYTES {
            r matches Err(e) && e@ == "이미지는 10MB 이하만 공유할 수 있습니다."@
        } else {
            r matches Ok(v) && v@ == p
        },
{
    match encode_png(width, height, rgba) {
        None => Err(String::from_str("이미지를 준비할 수 없습니다.")),
        Some(p) => {
            if p.len() == 0 || p.len() as u64 > MAX_FILE_BYTES {
                Err(String::from_str("이미지는 10MB 이하만 공유할 수 있습니다."))
            } else {
                Ok(p)
            }
        },
    }
}

/// The name under which a clipboard image is saved and shared.
pub fn image_file_name(millis: u64) -> (r: String)
    ensures
        r@ == "clipboard-image-"@ + decimal_text(millis as nat) + ".png"@,
{
    let mut s = String::from_str("clipboard-image-");
    let d = decimal(millis as u128);
    s.append(d.as_str());
    s.append(".png");
    s
}

/// An image received from another device: its pixels, or an error when it
/// cannot be decoded.
pub fn received_image(bytes: &[u8]) -> (r: Result<Rgba, String>)
    ensures
        match decoded_rgba(bytes@) {
            Some(t) => r matches Ok(i) && i.width == t.0 && i.height == t.1 && i.pixels@ == t.2,
            None => r matches Err(e) && e@ == "받은 이미지를 열 수 없습니다."@,
        },
{
    match decode_image(bytes) {
        Some(i) => Ok(i),
        None => Err(String::from_str("받은 이미지를 열 수 없습니다.")),
    }
}

} // verus!
