//! Trusted boundary to the image codecs.
//!
//! Decoding and encoding are done by the `image` and `webp` crates.
//! Every call here is deterministic in its arguments, so each outcome
//! gets an uninterpreted name — the decoded image a decode yields, and
//! whether each encoder accepts an image — and the verified compressor
//! contracts are stated over those names.

use vstd::prelude::*;

verus! {

#[verifier::external_type_specification]
#[verifier::external_body]
pub struct ExDynamicImage(image::DynamicImage);

/// Whether the bytes decode as an image in any format the decoder
/// recognizes; the outcome depends on the bytes alone.
pub uninterp spec fn image_decodes_ok(bytes: Seq<u8>) -> bool;

/// The image that decoding the bytes (format guessed from content)
/// yields, when it succeeds.
pub uninterp spec fn decoded_image_of(bytes: Seq<u8>) -> image::DynamicImage;

/// Whether the bytes decode specifically as a WebP image; the outcome
/// depends on the bytes alone.
pub uninterp spec fn webp_decodes_ok(bytes: Seq<u8>) -> bool;

/// The image that decoding the bytes as WebP yields, when it succeeds.
pub uninterp spec fn webp_decoded_image_of(bytes: Seq<u8>) -> image::DynamicImage;

/// Whether the JPEG encoder accepts the image at the given quality
/// (it refuses, for instance, dimensions above the format's limit or a
/// color layout JPEG cannot hold).
pub uninterp spec fn jpeg_encoding_ok(img: image::DynamicImage, quality: u8) -> bool;

/// Whether the PNG encoder accepts the image.
pub uninterp spec fn png_encoding_ok(img: image::DynamicImage) -> bool;

/// Whether the WebP encoder can be constructed from the image: it
/// accepts only the 8-bit RGB and RGBA layouts.
pub uninterp spec fn webp_encoder_ok(img: image::DynamicImage) -> bool;

/// Whether WebP encoding of the image at the given quality succeeds.
pub uninterp spec fn webp_encoding_ok(img: image::DynamicImage, quality: u8) -> bool;

/// A JPEG stream: begins with the two-byte start-of-image marker.
pub open spec fn is_jpeg_soi(b: Seq<u8>) -> bool {
    b.len() >= 2 && b[0] == 0xFFu8 && b[1] == 0xD8u8
}

/// A PNG file: begins with the fixed eight-byte PNG signature.
pub open spec fn is_png_signature(b: Seq<u8>) -> bool {
    b.len() >= 8 && b.subrange(0, 8) == seq![
        0x89u8,
        0x50u8,
        0x4Eu8,
        0x47u8,
        0x0Du8,
        0x0Au8,
        0x1Au8,
        0x0Au8,
    ]
}

/// A complete WebP file: a RIFF container whose form type is `WEBP`.
pub open spec fn is_webp_container(b: Seq<u8>) -> bool {
    &&& b.len() >= 12
    &&& b.subrange(0, 4) == seq![0x52u8, 0x49u8, 0x46u8, 0x46u8]
    &&& b.subrange(8, 12) == seq![0x57u8, 0x45u8, 0x42u8, 0x50u8]
}

/// Failure inside the WebP encoding wrapper, telling the
/// encoder-construction stage apart from the encoding stage.
pub enum WebpEncodeFailure {
    /// The encoder refused the image's color layout.
    Construction(String),
    /// libwebp failed to encode at the requested quality.
    Encode(String),
}

/// Relies on `image::load_from_memory`: decodes the bytes with the
/// format guessed from their content; deterministic in the bytes, and
/// successful exactly when they are a decodable image.
#[verifier::external_body]
pub(crate) fn decode_image(bytes: &Vec<u8>) -> (r: Result<image::DynamicImage, String>)
    ensures
        r is Ok <==> image_decodes_ok(bytes@),
        r matches Ok(img) ==> img == decoded_image_of(bytes@),
{
    image::load_from_memory(bytes.as_slice()).map_err(|e| e.to_string())
}

/// Relies on `image::load_from_memory_with_format` with the format
/// forced to WebP: only WebP-encoded bytes decode; deterministic in
/// the bytes.
#[verifier::external_body]
pub(crate) fn decode_webp_image(bytes: &Vec<u8>) -> (r: Result<image::DynamicImage, String>)
    ensures
        r is Ok <==> webp_decodes_ok(bytes@),
        r matches Ok(img) ==> img == webp_decoded_image_of(bytes@),
{
    image::load_from_memory_with_format(bytes.as_slice(), image::ImageFormat::WebP)
        .map_err(|e| e.to_string())
}

/// Relies on `image::codecs::jpeg::JpegEncoder::new_with_quality` and
/// `DynamicImage::write_with_encoder`: encodes the image as JPEG at
/// the given quality into an in-memory buffer; deterministic in image
/// and quality. A successful encoding begins with the JPEG
/// start-of-image marker.
#[verifier::external_body]
pub(crate) fn encode_jpeg_bytes(img: &image::DynamicImage, quality: u8) -> (r: Result<
    Vec<u8>,
    String,
>)
    ensures
        r is Ok <==> jpeg_encoding_ok(*img, quality),
        r matches Ok(v) ==> is_jpeg_soi(v@),
{
    let mut out: Vec<u8> = Vec::new();
    let enc = image::codecs::jpeg::JpegEncoder::new_with_quality(&mut out, quality);
    match img.write_with_encoder(enc) {
        Ok(()) => Ok(out),
        Err(e) => Err(e.to_string()),
    }
}

/// Relies on `DynamicImage::write_to` with `ImageFormat::Png`: encodes
/// the image losslessly as PNG into an in-memory buffer; deterministic
/// in the image. A successful encoding begins with the PNG signature.
#[verifier::external_body]
pub(crate) fn encode_png_bytes(img: &image::DynamicImage) -> (r: Result<Vec<u8>, String>)
    ensures
        r is Ok <==> png_encoding_ok(*img),
        r matches Ok(v) ==> is_png_signature(v@),
{
    let mut out: Vec<u8> = Vec::new();
    match img.write_to(&mut std::io::Cursor::new(&mut out), image::ImageFormat::Png) {
        Ok(()) => Ok(out),
        Err(e) => Err(e.to_string()),
    }
}

/// Relies on `webp::Encoder::from_image` and
/// `webp::Encoder::encode_simple` in lossy mode. The two calls share
/// one wrapper because the encoder borrows the image, and the contract
/// must be stated over the image: construction fails exactly for the
/// color layouts the encoder refuses, and a successful encode returns
/// a complete WebP file (a RIFF container with form type `WEBP`).
/// Both calls are deterministic in image and quality.
#[verifier::external_body]
pub(crate) fn encode_webp_bytes(img: &image::DynamicImage, quality: u8) -> (r: Result<
    Vec<u8>,
    WebpEncodeFailure,
>)
    requires
        quality <= 100,
    ensures
        r is Ok ==> webp_encoder_ok(*img),
        r is Ok ==> webp_encoding_ok(*img, quality),
        r matches Err(f) ==> !webp_encoder_ok(*img) || !webp_encoding_ok(*img, quality),
        r matches Err(f) ==> (f is Construction <==> !webp_encoder_ok(*img)),
        r matches Ok(v) ==> is_webp_container(v@),
{
    let enc = match webp::Encoder::from_image(img) {
        Ok(enc) => enc,
        Err(e) => return Err(WebpEncodeFailure::Construction(e.to_string())),
    };
    match enc.encode_simple(false, quality.into()) {
        Ok(mem) => Ok(mem.to_vec()),
        Err(e) => Err(WebpEncodeFailure::Encode(format!("{:?}", e))),
    }
}

} // verus!
