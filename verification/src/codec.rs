//! Trusted boundary to the base64 and image codecs.
//!
//! Each function here wraps one outside call; its contract names the call's
//! result, which depends on the input alone, so that the verified pipeline
//! can speak about it exactly.

use vstd::prelude::*;
use crate::pixbuf::RgbaBuffer;

verus! {

/// What base64 standard decoding (padded alphabet) yields for a string:
/// the decoded bytes, or nothing when the string is not valid base64.
pub uninterp spec fn b64_decode_of(s: Seq<char>) -> Option<Seq<u8>>;

/// What base64 standard encoding (padded alphabet) yields for a byte string.
pub uninterp spec fn b64_encode_of(b: Seq<u8>) -> Seq<char>;

/// What loading a byte string as an image and expanding it to RGBA yields:
/// width, height and the row-major RGBA bytes, or nothing when the bytes are
/// not a loadable image.
pub uninterp spec fn decoded_rgba_of(b: Seq<u8>) -> Option<(nat, nat, Seq<u8>)>;

/// What encoding an RGBA buffer as PNG yields.
pub uninterp spec fn png_of(w: nat, h: nat, data: Seq<u8>) -> Seq<u8>;

/// Relies on `base64::engine::general_purpose::STANDARD.decode`: the standard
/// alphabet with padding; the result depends on the input alone.
#[verifier::external_body]
pub(crate) fn b64_decode(s: &str) -> (r: Option<Vec<u8>>)
    ensures
        match r {
            Some(v) => b64_decode_of(s@) == Some(v@),
            None => b64_decode_of(s@) is None,
        },
{
    base64::Engine::decode(&base64::engine::general_purpose::STANDARD, s).ok()
}

/// Relies on `base64::engine::general_purpose::STANDARD.encode`: the standard
/// alphabet with padding; never fails, depends on the input alone.
#[verifier::external_body]
pub(crate) fn b64_encode(b: &Vec<u8>) -> (r: String)
    ensures
        r@ == b64_encode_of(b@),
{
    base64::Engine::encode(&base64::engine::general_purpose::STANDARD, b.as_slice())
}

/// Relies on `image::load_from_memory` (format auto-detected) and
/// `DynamicImage::to_rgba8`: a loaded image expands to a row-major RGBA
/// buffer of exactly four bytes per pixel; the result is a function of the
/// bytes alone (the decoder fixes its arithmetic once per process).
#[verifier::external_body]
pub(crate) fn load_rgba(bytes: &Vec<u8>) -> (r: Option<RgbaBuffer>)
    ensures
        match r {
            Some(b) => decoded_rgba_of(bytes@) == Some(
                ((b.width as nat), (b.height as nat), b.data@),
            ) && b.wf(),
            None => decoded_rgba_of(bytes@) is None,
        },
{
    match image::load_from_memory(bytes.as_slice()) {
        Ok(img) => {
            let rgba = img.to_rgba8();
            let (width, height) = rgba.dimensions();
            Some(RgbaBuffer { width, height, data: rgba.into_raw() })
        },
        Err(_) => None,
    }
}

/// Relies on `image::ImageBuffer::from_raw` and
/// `ImageBuffer::write_to(.., Png)`: a deterministic lossless encoder; on
/// failure it reports the encoder's message.  The PNG encoder writing into
/// memory only refuses an image with a zero dimension, so success is owed
/// whenever both dimensions are at least 1 (stated here up to the 16-bit
/// range the pipeline uses).
#[verifier::external_body]
pub(crate) fn png_encode(buf: &RgbaBuffer) -> (r: Result<Vec<u8>, String>)
    requires
        buf.wf(),
    ensures
        match r {
            Ok(v) => v@ == png_of(buf.width as nat, buf.height as nat, buf.data@),
            Err(_) => true,
        },
        (1 <= buf.width <= 65535 && 1 <= buf.height <= 65535) ==> r is Ok,
{
    let img: image::RgbaImage =
        match image::ImageBuffer::from_raw(buf.width, buf.height, buf.data.clone()) {
            Some(i) => i,
            None => return Err(String::from("buffer does not match its dimensions")),
        };
    let mut cur = std::io::Cursor::new(Vec::new());
    match img.write_to(&mut cur, image::ImageOutputFormat::Png) {
        Ok(()) => Ok(cur.into_inner()),
        Err(e) => Err(format!("{e}")),
    }
}

} // verus!
