//! The portable forms of an icon: decoding an asset file into pixels, and
//! encoding pixels as a PNG container in base64 text.

use vstd::prelude::*;
use crate::bitmap::{Pixels, RgbaImage};

verus! {

/// The RGBA pixels that the image file `bytes` decodes to, in the format
/// whose built-in signature its first bytes carry; nothing where they
/// carry none, the format is not supported or the file is damaged.
pub uninterp spec fn decoded_image(bytes: Seq<u8>) -> Option<Pixels>;

/// The PNG file that holds the RGBA image of the given size and bytes;
/// nothing where the encoder refuses it.
pub uninterp spec fn png_bytes(width: nat, height: nat, data: Seq<u8>) -> Option<Seq<u8>>;

/// The standard base64 text of `bytes`, padded.
pub uninterp spec fn base64_text(bytes: Seq<u8>) -> Seq<char>;

/// The bytes that the standard base64 text `text` stands for; nothing
/// where `text` is no such text.
pub uninterp spec fn base64_bytes(text: Seq<char>) -> Option<Seq<u8>>;

/// Finds the format of an image file with `image::guess_format`, decodes
/// it in that format with `image::load_from_memory_with_format` and
/// converts it with `DynamicImage::to_rgba8`; hands out the size and the
/// bytes of the buffer. Both calls go by the signatures and decoders that
/// are built into `image` and ask no registry of the process, so the
/// outcome depends on the bytes alone; the contract gives it its name.
#[verifier::external_body]
fn decode_image(bytes: &Vec<u8>) -> (r: Option<(u32, u32, Vec<u8>)>)
    ensures
        match r {
            Some((width, height, data)) => decoded_image(bytes@) == Some(
                Pixels { width: width as nat, height: height as nat, data: data@ },
            ),
            None => decoded_image(bytes@) is None,
        },
{
    let format = image::guess_format(bytes).ok()?;
    let image = image::load_from_memory_with_format(bytes, format).ok()?.to_rgba8();
    Some((image.width(), image.height(), image.into_raw()))
}

/// Writes an RGBA buffer as a PNG file into memory with
/// `image::write_buffer_with_format`. That function panics unless the
/// buffer holds four bytes per pixel, which `requires` asks for. The
/// contract only gives the outcome its name: it depends on the size and
/// the bytes alone.
#[verifier::external_body]
fn encode_png(width: u32, height: u32, data: &Vec<u8>) -> (r: Option<Vec<u8>>)
    requires
        data@.len() == 4 * width * height,
    ensures
        match r {
            Some(file) => png_bytes(width as nat, height as nat, data@) == Some(file@),
            None => png_bytes(width as nat, height as nat, data@) is None,
        },
{
    let mut file: Vec<u8> = Vec::new();
    image::write_buffer_with_format(
        &mut std::io::Cursor::new(&mut file),
        data,
        width,
        height,
        image::ExtendedColorType::Rgba8,
        image::ImageFormat::Png,
    ).ok()?;
    Some(file)
}

/// The base64 text of `len` bytes can be addressed: four characters for
/// every three bytes begun.
pub open spec fn fits_base64(len: nat) -> bool {
    4 * ((len + 2) / 3) <= usize::MAX
}

/// Encodes bytes with `Engine::encode` of `base64`'s
/// `general_purpose::STANDARD`. That function panics where the length of
/// the text overflows, which `requires` leaves out. The contract only
/// gives the text its name: it depends on the bytes alone.
#[verifier::external_body]
fn encode_base64(bytes: &Vec<u8>) -> (r: String)
    requires
        fits_base64(bytes@.len()),
    ensures
        r@ == base64_text(bytes@),
{
    base64::Engine::encode(&base64::engine::general_purpose::STANDARD, bytes)
}

/// Decodes text with `Engine::decode` of `base64`'s
/// `general_purpose::STANDARD`. The contract only gives the outcome its
/// name: it depends on the text alone.
#[verifier::external_body]
fn decode_base64(text: &str) -> (r: Option<Vec<u8>>)
    ensures
        match r {
            Some(bytes) => base64_bytes(text@) == Some(bytes@),
            None => base64_bytes(text@) is None,
        },
{
    base64::Engine::decode(&base64::engine::general_purpose::STANDARD, text).ok()
}

/// The image that a decoder's outcome gives: the pixels where there are
/// some and their buffer holds four bytes for each.
pub open spec fn image_given(decoded: Option<Pixels>) -> Option<Pixels> {
    match decoded {
        Some(pixels) => if pixels.well_sized() {
            Some(pixels)
        } else {
            None
        },
        None => None,
    }
}

/// The image of the asset file `bytes`.
pub open spec fn loaded_image(bytes: Seq<u8>) -> Option<Pixels> {
    image_given(decoded_image(bytes))
}

/// Makes an image of what a decoder handed out.
pub fn image_from_parts(decoded: Option<(u32, u32, Vec<u8>)>) -> (r: Option<RgbaImage>)
    ensures
        match r {
            Some(image) => image_given(parts_view(decoded)) == Some(image@),
            None => image_given(parts_view(decoded)) is None,
        },
{
    match decoded {
        Some((width, height, data)) => RgbaImage::from_raw(width, height, data),
        None => None,
    }
}

/// What a decoder handed out, as pixels.
pub open spec fn parts_view(decoded: Option<(u32, u32, Vec<u8>)>) -> Option<Pixels> {
    match decoded {
        Some((width, height, data)) => Some(
            Pixels { width: width as nat, height: height as nat, data: data@ },
        ),
        None => None,
    }
}

/// Decodes the asset file `bytes` into an image.
pub fn load_image(bytes: &Vec<u8>) -> (r: Option<RgbaImage>)
    ensures
        match r {
            Some(image) => loaded_image(bytes@) == Some(image@),
            None => loaded_image(bytes@) is None,
        },
{
    image_from_parts(decode_image(bytes))
}

/// The text of an encoded container: its base64 text, where that can be
/// addressed.
pub open spec fn text_given(file: Option<Seq<u8>>) -> Option<Seq<char>> {
    match file {
        Some(bytes) => if fits_base64(bytes.len()) {
            Some(base64_text(bytes))
        } else {
            None
        },
        None => None,
    }
}

/// The encoded form of an image: its PNG file in base64 text.
pub open spec fn encoded_icon(image: Pixels) -> Option<Seq<char>> {
    text_given(png_bytes(image.width, image.height, image.data))
}

/// Whether the base64 text of `len` bytes can be addressed.
pub fn check_fits_base64(len: usize) -> (r: bool)
    ensures
        r == fits_base64(len as nat),
{
    let groups: usize = len / 3;
    let limit: usize = usize::MAX / 4;
    if len % 3 == 0 {
        groups <= limit
    } else {
        groups < limit
    }
}

/// Encodes a container file as text.
pub fn text_from_file(file: &Option<Vec<u8>>) -> (r: Option<String>)
    ensures
        match r {
            Some(text) => text_given(file_view(*file)) == Some(text@),
            None => text_given(file_view(*file)) is None,
        },
{
    match file {
        Some(bytes) => if check_fits_base64(bytes.len()) {
            Some(encode_base64(bytes))
        } else {
            None
        },
        None => None,
    }
}

/// A container file, as bytes.
pub open spec fn file_view(file: Option<Vec<u8>>) -> Option<Seq<u8>> {
    match file {
        Some(bytes) => Some(bytes@),
        None => None,
    }
}

/// Encodes an image as a PNG file in base64 text.
pub fn encode_icon(image: &RgbaImage) -> (r: Option<String>)
    ensures
        match r {
            Some(text) => encoded_icon(image@) == Some(text@),
            None => encoded_icon(image@) is None,
        },
{
    let data = image.as_raw();
    let file = encode_png(image.width(), image.height(), data);
    text_from_file(&file)
}

/// The image that base64 text holds: its bytes decoded as an image file.
pub open spec fn image_of_text(text: Seq<char>) -> Option<Pixels> {
    match base64_bytes(text) {
        Some(bytes) => loaded_image(bytes),
        None => None,
    }
}

/// Decodes the image file that the base64 text `base64` holds.
pub fn get_icon_from_base64(base64: &str) -> (r: Option<RgbaImage>)
    ensures
        match r {
            Some(image) => image_of_text(base64@) == Some(image@),
            None => image_of_text(base64@) is None,
        },
{
    match decode_base64(base64) {
        Some(bytes) => load_image(&bytes),
        None => None,
    }
}

} // verus!
