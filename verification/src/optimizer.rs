//! Format compressor.
//!
//! Takes a stored image file, decodes it, re-encodes it in a target
//! codec (JPEG, PNG or WebP) at a requested quality, and writes the
//! result, surfacing the precise stage that failed: open, decode,
//! encoder construction (WebP), encode, or write. The JPEG and PNG
//! paths accept any decodable input; the WebP path requires the input
//! to already be WebP-encoded. No stage is retried, and the output
//! file is only ever written from a complete encoding.
//!
//! The re-encoding itself ([`transcode_jpeg`], [`transcode_png`],
//! [`transcode_webp`]) succeeds exactly when the decoder and encoder
//! accept the bytes; the outcomes of the input read and the output
//! write are mapped to their stages by [`open_stage`] and
//! [`write_stage`].

use vstd::prelude::*;
use vstd::string::StringExecFns;

use crate::imagecodec;
use crate::imagecodec::{
    decoded_image_of, image_decodes_ok, is_jpeg_soi, is_png_signature, is_webp_container,
    jpeg_encoding_ok, png_encoding_ok, webp_decoded_image_of, webp_decodes_ok, webp_encoder_ok,
    webp_encoding_ok, WebpEncodeFailure,
};
use crate::storage;

verus! {

/// Target codec of a compression request.
#[derive(Clone, Copy, PartialEq, Eq, Structural, Debug)]
pub enum Codec {
    Jpeg,
    Png,
    WebP,
}

/// Failure of one compression call. Each variant identifies the stage
/// that failed and carries the path it concerns and the underlying
/// cause.
#[derive(Debug)]
pub enum CompressError {
    /// The input file could not be opened or read.
    OpenInputFailed { path: String, cause: String },
    /// The input bytes are not a decodable image in the expected
    /// source format.
    DecodeFailed { path: String, cause: String },
    /// The decoded image cannot be wrapped by the WebP encoder.
    EncoderConstructionFailed { path: String, cause: String },
    /// Re-encoding the decoded image failed.
    EncodeFailed { path: String, cause: String },
    /// The encoded bytes could not be written to the output path.
    WriteOutputFailed { path: String, cause: String },
}

impl CompressError {
    /// The path the failure concerns: the input path for open, decode
    /// and encode stages, the output path for the write stage.
    pub open spec fn path_spec(&self) -> Seq<char> {
        match self {
            CompressError::OpenInputFailed { path, .. } => path@,
            CompressError::DecodeFailed { path, .. } => path@,
            CompressError::EncoderConstructionFailed { path, .. } => path@,
            CompressError::EncodeFailed { path, .. } => path@,
            CompressError::WriteOutputFailed { path, .. } => path@,
        }
    }

    /// The underlying cause reported by the failing stage.
    pub open spec fn cause_spec(&self) -> Seq<char> {
        match self {
            CompressError::OpenInputFailed { cause, .. } => cause@,
            CompressError::DecodeFailed { cause, .. } => cause@,
            CompressError::EncoderConstructionFailed { cause, .. } => cause@,
            CompressError::EncodeFailed { cause, .. } => cause@,
            CompressError::WriteOutputFailed { cause, .. } => cause@,
        }
    }

    pub fn path(&self) -> (p: &String)
        ensures
            p@ == self.path_spec(),
    {
        match self {
            CompressError::OpenInputFailed { path, .. } => path,
            CompressError::DecodeFailed { path, .. } => path,
            CompressError::EncoderConstructionFailed { path, .. } => path,
            CompressError::EncodeFailed { path, .. } => path,
            CompressError::WriteOutputFailed { path, .. } => path,
        }
    }

    pub fn cause(&self) -> (c: &String)
        ensures
            c@ == self.cause_spec(),
    {
        match self {
            CompressError::OpenInputFailed { cause, .. } => cause,
            CompressError::DecodeFailed { cause, .. } => cause,
            CompressError::EncoderConstructionFailed { cause, .. } => cause,
            CompressError::EncodeFailed { cause, .. } => cause,
            CompressError::WriteOutputFailed { cause, .. } => cause,
        }
    }

    /// The name of the stage that failed.
    pub fn stage(&self) -> (s: &'static str)
        ensures
            self is OpenInputFailed ==> s@ == "open input"@,
            self is DecodeFailed ==> s@ == "decode"@,
            self is EncoderConstructionFailed ==> s@ == "construct encoder"@,
            self is EncodeFailed ==> s@ == "encode"@,
            self is WriteOutputFailed ==> s@ == "write output"@,
    {
        match self {
            CompressError::OpenInputFailed { .. } => "open input",
            CompressError::DecodeFailed { .. } => "decode",
            CompressError::EncoderConstructionFailed { .. } => "construct encoder",
            CompressError::EncodeFailed { .. } => "encode",
            CompressError::WriteOutputFailed { .. } => "write output",
        }
    }

    /// A readable report of the failure: stage, path and cause.
    pub fn message(&self) -> (m: String)
        ensures
            m@ == self.stage_name_spec() + " failed for "@ + self.path_spec() + ": "@
                + self.cause_spec(),
    {
        let mut m = self.stage().to_owned();
        m.append(" failed for ");
        m.append(self.path().as_str());
        m.append(": ");
        m.append(self.cause().as_str());
        m
    }

    /// The name of the stage that failed, as a sequence of characters.
    pub open spec fn stage_name_spec(&self) -> Seq<char> {
        match self {
            CompressError::OpenInputFailed { .. } => "open input"@,
            CompressError::DecodeFailed { .. } => "decode"@,
            CompressError::EncoderConstructionFailed { .. } => "construct encoder"@,
            CompressError::EncodeFailed { .. } => "encode"@,
            CompressError::WriteOutputFailed { .. } => "write output"@,
        }
    }
}

/// The errors the JPEG and PNG paths may report, each on the path it
/// concerns; they never report a WebP encoder-construction failure.
pub open spec fn valid_image_path_error(
    e: CompressError,
    input: Seq<char>,
    output: Seq<char>,
) -> bool {
    match e {
        CompressError::OpenInputFailed { path, .. } => path@ == input,
        CompressError::DecodeFailed { path, .. } => path@ == input,
        CompressError::EncoderConstructionFailed { .. } => false,
        CompressError::EncodeFailed { path, .. } => path@ == input,
        CompressError::WriteOutputFailed { path, .. } => path@ == output,
    }
}

/// The errors the WebP path may report, each on the path it concerns.
pub open spec fn valid_webp_error(e: CompressError, input: Seq<char>, output: Seq<char>) -> bool {
    match e {
        CompressError::OpenInputFailed { path, .. } => path@ == input,
        CompressError::DecodeFailed { path, .. } => path@ == input,
        CompressError::EncoderConstructionFailed { path, .. } => path@ == input,
        CompressError::EncodeFailed { path, .. } => path@ == input,
        CompressError::WriteOutputFailed { path, .. } => path@ == output,
    }
}

/// Decides the open stage: the outcome of reading the input file
/// becomes either the bytes read or `OpenInputFailed` carrying the
/// input path and the cause — exactly when the read failed, and never
/// any other variant.
pub fn open_stage(read_result: Result<Vec<u8>, String>, input_path: &str) -> (r: Result<
    Vec<u8>,
    CompressError,
>)
    ensures
        r is Ok <==> read_result is Ok,
        read_result matches Ok(bytes) ==> (r matches Ok(out) && out@ == bytes@),
        read_result matches Err(cause) ==> (r matches Err(e) && e matches
            CompressError::OpenInputFailed { path, cause: c } && path@ == input_path@ && c@
            == cause@),
{
    match read_result {
        Ok(bytes) => Ok(bytes),
        Err(cause) => Err(CompressError::OpenInputFailed { path: input_path.to_owned(), cause }),
    }
}

/// Decides the write stage: the outcome of writing the encoded bytes
/// becomes either success or `WriteOutputFailed` carrying the output
/// path and the cause — exactly when the write failed, and never any
/// other variant. A write failure is never swallowed.
pub fn write_stage(write_result: Result<(), String>, output_path: &str) -> (r: Result<
    (),
    CompressError,
>)
    ensures
        r is Ok <==> write_result is Ok,
        write_result matches Err(cause) ==> (r matches Err(e) && e matches
            CompressError::WriteOutputFailed { path, cause: c } && path@ == output_path@ && c@
            == cause@),
{
    match write_result {
        Ok(()) => Ok(()),
        Err(cause) => Err(CompressError::WriteOutputFailed { path: output_path.to_owned(), cause }),
    }
}

/// Re-encodes already-read input bytes as JPEG at the given quality
/// (0 to 100, higher preserving more detail). `input_path` is only
/// recorded in errors. Succeeds exactly when the bytes decode as an
/// image and the JPEG encoder accepts the decoded image at that
/// quality; fails with `DecodeFailed` exactly when the bytes are not
/// a decodable image. A successful result is a JPEG stream.
pub fn transcode_jpeg(bytes: &Vec<u8>, input_path: &str, quality: u8) -> (r: Result<
    Vec<u8>,
    CompressError,
>)
    requires
        quality <= 100,
    ensures
        r is Ok <==> image_decodes_ok(bytes@) && jpeg_encoding_ok(
            decoded_image_of(bytes@),
            quality,
        ),
        (r matches Err(e) && e is DecodeFailed) <==> !image_decodes_ok(bytes@),
        r matches Err(e) ==> (e is DecodeFailed || e is EncodeFailed) && e.path_spec()
            == input_path@,
        r matches Ok(v) ==> is_jpeg_soi(v@),
{
    let img = match imagecodec::decode_image(bytes) {
        Ok(img) => img,
        Err(cause) => {
            return Err(CompressError::DecodeFailed { path: input_path.to_owned(), cause });
        },
    };
    match imagecodec::encode_jpeg_bytes(&img, quality) {
        Ok(out) => Ok(out),
        Err(cause) => Err(CompressError::EncodeFailed { path: input_path.to_owned(), cause }),
    }
}

/// Re-encodes already-read input bytes losslessly as PNG (no quality
/// parameter applies). `input_path` is only recorded in errors.
/// Succeeds exactly when the bytes decode as an image and the PNG
/// encoder accepts the decoded image; fails with `DecodeFailed`
/// exactly when the bytes are not a decodable image. A successful
/// result begins with the PNG signature.
pub fn transcode_png(bytes: &Vec<u8>, input_path: &str) -> (r: Result<Vec<u8>, CompressError>)
    ensures
        r is Ok <==> image_decodes_ok(bytes@) && png_encoding_ok(decoded_image_of(bytes@)),
        (r matches Err(e) && e is DecodeFailed) <==> !image_decodes_ok(bytes@),
        r matches Err(e) ==> (e is DecodeFailed || e is EncodeFailed) && e.path_spec()
            == input_path@,
        r matches Ok(v) ==> is_png_signature(v@),
{
    let img = match imagecodec::decode_image(bytes) {
        Ok(img) => img,
        Err(cause) => {
            return Err(CompressError::DecodeFailed { path: input_path.to_owned(), cause });
        },
    };
    match imagecodec::encode_png_bytes(&img) {
        Ok(out) => Ok(out),
        Err(cause) => Err(CompressError::EncodeFailed { path: input_path.to_owned(), cause }),
    }
}

/// Re-encodes already-read WebP bytes as WebP at the given quality
/// (0 to 100). The input must already be WebP: any other encoding
/// fails with `DecodeFailed`, exactly when the bytes do not decode as
/// WebP. Succeeds exactly when the bytes decode, the encoder accepts
/// the decoded image's layout, and encoding at the quality succeeds;
/// `EncoderConstructionFailed` is reported exactly when the decoded
/// image's layout is refused. A successful result is a complete WebP
/// file, beginning with the `RIFF`/`WEBP` container signature.
pub fn transcode_webp(bytes: &Vec<u8>, input_path: &str, quality: u8) -> (r: Result<
    Vec<u8>,
    CompressError,
>)
    requires
        quality <= 100,
    ensures
        r is Ok <==> webp_decodes_ok(bytes@) && webp_encoder_ok(webp_decoded_image_of(bytes@))
            && webp_encoding_ok(webp_decoded_image_of(bytes@), quality),
        (r matches Err(e) && e is DecodeFailed) <==> !webp_decodes_ok(bytes@),
        (r matches Err(e) && e is EncoderConstructionFailed) <==> (webp_decodes_ok(bytes@)
            && !webp_encoder_ok(webp_decoded_image_of(bytes@))),
        r matches Err(e) ==> (e is DecodeFailed || e is EncoderConstructionFailed
            || e is EncodeFailed) && e.path_spec() == input_path@,
        r matches Ok(v) ==> is_webp_container(v@),
{
    let img = match imagecodec::decode_webp_image(bytes) {
        Ok(img) => img,
        Err(cause) => {
            return Err(CompressError::DecodeFailed { path: input_path.to_owned(), cause });
        },
    };
    match imagecodec::encode_webp_bytes(&img, quality) {
        Ok(out) => Ok(out),
        Err(WebpEncodeFailure::Construction(cause)) => Err(
            CompressError::EncoderConstructionFailed { path: input_path.to_owned(), cause },
        ),
        Err(WebpEncodeFailure::Encode(cause)) => Err(
            CompressError::EncodeFailed { path: input_path.to_owned(), cause },
        ),
    }
}

/// Compresses the image stored at `input_path` into a JPEG of the
/// given quality at `output_path`: the read outcome is decided by
/// [`open_stage`], the re-encoding by [`transcode_jpeg`], the write
/// outcome by [`write_stage`]. Any error names the failed stage and
/// carries the path it concerns: the input path up to encoding, the
/// output path for the final write.
pub fn compress_jpeg(input_path: &str, output_path: &str, quality: u8) -> (r: Result<
    (),
    CompressError,
>)
    requires
        quality <= 100,
    ensures
        r matches Err(e) ==> valid_image_path_error(e, input_path@, output_path@),
{
    let bytes = match open_stage(storage::read_file_bytes(input_path), input_path) {
        Ok(bytes) => bytes,
        Err(e) => return Err(e),
    };
    let out = match transcode_jpeg(&bytes, input_path, quality) {
        Ok(out) => out,
        Err(e) => return Err(e),
    };
    write_stage(storage::write_file_bytes(output_path, &out), output_path)
}

/// Compresses the image stored at `input_path` into a lossless PNG at
/// `output_path`: the read outcome is decided by [`open_stage`], the
/// re-encoding by [`transcode_png`], the write outcome by
/// [`write_stage`]. Any error names the failed stage and carries the
/// path it concerns.
pub fn compress_png(input_path: &str, output_path: &str) -> (r: Result<(), CompressError>)
    ensures
        r matches Err(e) ==> valid_image_path_error(e, input_path@, output_path@),
{
    let bytes = match open_stage(storage::read_file_bytes(input_path), input_path) {
        Ok(bytes) => bytes,
        Err(e) => return Err(e),
    };
    let out = match transcode_png(&bytes, input_path) {
        Ok(out) => out,
        Err(e) => return Err(e),
    };
    write_stage(storage::write_file_bytes(output_path, &out), output_path)
}

/// Re-compresses the WebP file stored at `input_path` as WebP at the
/// given quality at `output_path`: the read outcome is decided by
/// [`open_stage`], the re-encoding by [`transcode_webp`], the write
/// outcome by [`write_stage`]. The input must already be
/// WebP-encoded; any error names the failed stage and carries the
/// path it concerns.
pub fn compress_webp(input_path: &str, output_path: &str, quality: u8) -> (r: Result<
    (),
    CompressError,
>)
    requires
        quality <= 100,
    ensures
        r matches Err(e) ==> valid_webp_error(e, input_path@, output_path@),
{
    let bytes = match open_stage(storage::read_file_bytes(input_path), input_path) {
        Ok(bytes) => bytes,
        Err(e) => return Err(e),
    };
    let out = match transcode_webp(&bytes, input_path, quality) {
        Ok(out) => out,
        Err(e) => return Err(e),
    };
    write_stage(storage::write_file_bytes(output_path, &out), output_path)
}

/// One compression request, dispatched by target codec: decode the
/// file at `input_path`, re-encode it at the given quality (unused for
/// PNG; for WebP the input itself must already be WebP), and write the
/// result to `output_path`.
pub fn compress(input_path: &str, output_path: &str, codec: Codec, quality: u8) -> (r: Result<
    (),
    CompressError,
>)
    requires
        quality <= 100,
    ensures
        r matches Err(e) ==> match codec {
            Codec::Jpeg => valid_image_path_error(e, input_path@, output_path@),
            Codec::Png => valid_image_path_error(e, input_path@, output_path@),
            Codec::WebP => valid_webp_error(e, input_path@, output_path@),
        },
{
    match codec {
        Codec::Jpeg => compress_jpeg(input_path, output_path, quality),
        Codec::Png => compress_png(input_path, output_path),
        Codec::WebP => compress_webp(input_path, output_path, quality),
    }
}

} // verus!
