//! Pictures, and the forms in which they are kept and sent.
use vstd::prelude::*;

use base64::Engine;

verus! {

/// A picture: its pixels row by row, each as four bytes for red, green, blue and
/// opacity.
#[derive(Debug)]
pub struct Frame {
    pub width: u32,
    pub height: u32,
    pub pixels: Vec<u8>,
}

/// The content of a `Frame`.
pub struct FrameView {
    pub width: u32,
    pub height: u32,
    pub pixels: Seq<u8>,
}

impl View for Frame {
    type V = FrameView;

    open spec fn view(&self) -> FrameView {
        FrameView { width: self.width, height: self.height, pixels: self.pixels@ }
    }
}

/// Every pixel has its four bytes, and no byte is left over.
pub open spec fn well_formed(f: FrameView) -> bool {
    f.pixels.len() == 4 * f.width * f.height
}

/// The picture has pixels, and they take at most a mebibyte.
pub open spec fn modest(f: FrameView) -> bool {
    f.width > 0 && f.height > 0 && f.pixels.len() <= 1_048_576
}

/// What reading a picture gave.
pub open spec fn frame_result(r: Result<Frame, String>) -> Result<FrameView, Seq<char>> {
    match r {
        Ok(f) => Ok(f@),
        Err(e) => Err(e@),
    }
}

/// What making or reading bytes gave.
pub open spec fn bytes_result(r: Result<Vec<u8>, String>) -> Result<Seq<u8>, Seq<char>> {
    match r {
        Ok(b) => Ok(b@),
        Err(e) => Err(e@),
    }
}

/// The picture was read, as `f`.
pub open spec fn pictured(r: Result<FrameView, Seq<char>>, f: FrameView) -> bool {
    r == Ok::<FrameView, Seq<char>>(f)
}

/// The bytes were read, as `bytes`.
pub open spec fn recovered(r: Result<Seq<u8>, Seq<char>>, bytes: Seq<u8>) -> bool {
    r == Ok::<Seq<u8>, Seq<char>>(bytes)
}

/// What `image::load_from_memory_with_format` makes of bytes as a PNG file, turned
/// into RGBA: the picture, or its error in words.
pub uninterp spec fn png_picture(bytes: Seq<u8>) -> Result<FrameView, Seq<char>>;

/// What `image::load_from_memory` makes of bytes in a format that it finds out
/// itself, turned into RGBA: the picture, or its error in words.
pub uninterp spec fn any_picture(bytes: Seq<u8>) -> Result<FrameView, Seq<char>>;

/// The PNG file that `image::ImageBuffer::write_to` makes of a picture, or its error
/// in words.
pub uninterp spec fn png_file(f: FrameView) -> Result<Seq<u8>, Seq<char>>;

/// How `base64::Engine::encode` writes bytes in the standard alphabet.
pub uninterp spec fn base64_text(bytes: Seq<u8>) -> Seq<char>;

/// What `base64::Engine::decode` reads in a text in the standard alphabet: the bytes,
/// or its error in words.
pub uninterp spec fn base64_bytes(text: Seq<char>) -> Result<Seq<u8>, Seq<char>>;

/// The picture in a file that was written as text.
pub open spec fn picture_in(text: Seq<char>) -> Option<FrameView> {
    match base64_bytes(text) {
        Ok(bytes) => match any_picture(bytes) {
            Ok(f) => Some(f),
            Err(_) => None,
        },
        Err(_) => None,
    }
}

/// The file was written, and `image::load_from_memory` reads it as `f`.
pub open spec fn keeps(r: Result<Seq<u8>, Seq<char>>, f: FrameView) -> bool {
    r matches Ok(bytes) && pictured(any_picture(bytes), f)
}

/// `image::load_from_memory_with_format` for PNG, then `DynamicImage::to_rgba8`.
/// Claims that what comes back is what `png_picture` names, and that every pixel has
/// its four bytes.
#[verifier::external_body]
pub(crate) fn load_png(bytes: &[u8]) -> (r: Result<Frame, String>)
    ensures
        frame_result(r) == png_picture(bytes@),
        r matches Ok(f) ==> well_formed(f@),
{
    match image::load_from_memory_with_format(bytes, image::ImageFormat::Png) {
        Ok(picture) => {
            let rgba = picture.to_rgba8();
            let (width, height) = rgba.dimensions();
            Ok(Frame { width, height, pixels: rgba.into_raw() })
        },
        Err(e) => Err(e.to_string()),
    }
}

/// `image::load_from_memory`, then `DynamicImage::to_rgba8`. Claims that what comes
/// back is what `any_picture` names, and that every pixel has its four bytes.
#[verifier::external_body]
pub(crate) fn load_any(bytes: &[u8]) -> (r: Result<Frame, String>)
    ensures
        frame_result(r) == any_picture(bytes@),
        r matches Ok(f) ==> well_formed(f@),
{
    match image::load_from_memory(bytes) {
        Ok(picture) => {
            let rgba = picture.to_rgba8();
            let (width, height) = rgba.dimensions();
            Ok(Frame { width, height, pixels: rgba.into_raw() })
        },
        Err(e) => Err(e.to_string()),
    }
}

/// `image::ImageBuffer::write_to` in PNG, into memory. Claims that what comes back is
/// what `png_file` names; that a picture of at most a mebibyte that has pixels can be
/// written, for only an empty side is refused and memory takes every write; and that
/// `image::load_from_memory` reads such a picture back as it was, for PNG keeps every
/// byte of an RGBA picture and this size is within the reader's limits.
#[verifier::external_body]
pub(crate) fn save_png(f: &Frame) -> (r: Result<Vec<u8>, String>)
    requires
        well_formed(f@),
    ensures
        bytes_result(r) == png_file(f@),
        modest(f@) ==> keeps(bytes_result(r), f@),
{
    let mut buf = std::io::Cursor::new(Vec::new());
    match image::RgbaImage::from_raw(f.width, f.height, f.pixels.clone()) {
        Some(picture) => match picture.write_to(&mut buf, image::ImageFormat::Png) {
            Ok(()) => Ok(buf.into_inner()),
            Err(e) => Err(e.to_string()),
        },
        None => Err(String::new()),
    }
}

/// `base64::Engine::encode` of the standard engine. Claims that what comes back is
/// what `base64_text` names, and that the standard engine decodes it to the bytes.
#[verifier::external_body]
pub(crate) fn encode_standard(bytes: &[u8]) -> (r: String)
    ensures
        r@ == base64_text(bytes@),
        recovered(base64_bytes(r@), bytes@),
{
    base64::engine::general_purpose::STANDARD.encode(bytes)
}

/// `base64::Engine::decode` of the standard engine. Claims that what comes back is
/// what `base64_bytes` names.
#[verifier::external_body]
pub(crate) fn decode_standard(text: &str) -> (r: Result<Vec<u8>, String>)
    ensures
        bytes_result(r) == base64_bytes(text@),
{
    base64::engine::general_purpose::STANDARD.decode(text).map_err(|e| e.to_string())
}

} // verus!
