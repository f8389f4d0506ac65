use vstd::prelude::*;

use crate::error::Error;

verus! {

#[verifier::external_type_specification]
#[verifier::external_body]
pub struct ExDynamicImage(image::DynamicImage);

#[verifier::external_type_specification]
#[verifier::external_body]
pub struct ExImageError(image::ImageError);

#[verifier::external_type_specification]
#[verifier::external_body]
pub struct ExPngError(oxipng::PngError);

/// The pixel data that decoding a byte sequence yields, or `None` when the
/// bytes do not parse as a supported image container. Decoding sniffs the
/// container from the content, never from a name, so this is a function of
/// the bytes alone.
pub uninterp spec fn decoded_image(bytes: Seq<u8>) -> Option<Seq<u8>>;

/// The pixel data that a decoded image holds.
pub uninterp spec fn image_pixels(img: image::DynamicImage) -> Seq<u8>;

/// The lossy encoding of pixel data at a given quality, or `None` when the
/// encoder rejects that pixel data. Encoding is deterministic, so both are
/// functions of the pixel data and the quality alone.
pub uninterp spec fn jpeg_encoding(pixels: Seq<u8>, quality: u8) -> Option<Seq<u8>>;

/// The lossless intermediate encoding of pixel data, or `None` when the
/// encoder rejects that pixel data; a function of the pixel data alone.
pub uninterp spec fn png_encoding(pixels: Seq<u8>) -> Option<Seq<u8>>;

/// The recompression of a PNG stream by the exhaustive search compressor at
/// a given iteration count, or `None` when the recompressor rejects the
/// stream; a function of the input bytes and the iteration count alone.
pub uninterp spec fn optimized_png(png: Seq<u8>, iterations: u8) -> Option<Seq<u8>>;

/// Relies on image::load_from_memory: it guesses the container format from
/// the bytes themselves and decodes them, so success and the decoded pixels
/// are functions of the bytes alone.
#[verifier::external_body]
pub(crate) fn decode_image(bytes: &[u8]) -> (r: Result<image::DynamicImage, image::ImageError>)
    ensures
        (r matches Ok(img) ==> decoded_image(bytes@) == Some(image_pixels(img))),
        (r matches Err(_) ==> decoded_image(bytes@) is None),
{
    image::load_from_memory(bytes)
}

/// Relies on image::DynamicImage::write_with_encoder with
/// image::codecs::jpeg::JpegEncoder::new_with_quality: the encoding is
/// deterministic, so whether it succeeds and what it writes are functions of
/// the pixel data and the quality alone, and every JPEG stream the encoder
/// writes opens with the start-of-image marker 0xFF 0xD8 followed by the
/// 0xFF of the next segment marker.
#[verifier::external_body]
pub(crate) fn encode_jpeg(img: &image::DynamicImage, quality: u8) -> (r: Result<
    Vec<u8>,
    image::ImageError,
>)
    requires
        1 <= quality <= 100,
    ensures
        r is Ok <==> jpeg_encoding(image_pixels(*img), quality) is Some,
        (r matches Ok(out) ==> out@ == jpeg_encoding(image_pixels(*img), quality)->Some_0
            && out@.len() > 3 && out@[0] == 0xff && out@[1] == 0xd8 && out@[2] == 0xff),
{
    let mut buffer: Vec<u8> = Vec::new();
    let encoder = image::codecs::jpeg::JpegEncoder::new_with_quality(&mut buffer, quality);
    img.write_with_encoder(encoder)?;
    Ok(buffer)
}

/// Relies on image::DynamicImage::write_to with the PNG format: the encoding
/// is deterministic, so success and output are functions of the pixel data
/// alone; every PNG stream opens with the fixed eight-byte signature; and
/// PNG is lossless, so the output decodes back to the pixel data that went
/// in (the decoders this crate enables produce only integer-sampled images,
/// each of which PNG represents exactly).
#[verifier::external_body]
pub(crate) fn encode_png(img: &image::DynamicImage) -> (r: Result<Vec<u8>, image::ImageError>)
    ensures
        r is Ok <==> png_encoding(image_pixels(*img)) is Some,
        (r matches Ok(out) ==> out@ == png_encoding(image_pixels(*img))->Some_0 && out@.len() > 8
            && decoded_image(out@) == Some(image_pixels(*img)) && out@[0] == 0x89 && out@[1] == 0x50
            && out@[2] == 0x4e && out@[3] == 0x47 && out@[4] == 0x0d && out@[5] == 0x0a && out@[6]
            == 0x1a && out@[7] == 0x0a),
{
    let mut buffer: Vec<u8> = Vec::new();
    img.write_to(&mut std::io::Cursor::new(&mut buffer), image::ImageFormat::Png)?;
    Ok(buffer)
}

/// Relies on oxipng::optimize_from_memory with the Zopfli deflater at the
/// given iteration count: it rewrites the PNG's compressed stream without
/// touching the samples (the reductions that would change the sample layout
/// are switched off here, and no lossy option is on) and is deterministic,
/// so success and output are functions of the input bytes and the iteration
/// count alone; the result is again a PNG with the fixed eight-byte
/// signature and decodes to whatever the input decoded to.
#[verifier::external_body]
pub(crate) fn optimize_png(png: &Vec<u8>, iterations: u8) -> (r: Result<Vec<u8>, oxipng::PngError>)
    requires
        iterations >= 1,
    ensures
        r is Ok <==> optimized_png(png@, iterations) is Some,
        (r matches Ok(out) ==> out@ == optimized_png(png@, iterations)->Some_0 && out@.len() > 8
            && decoded_image(out@) == decoded_image(png@) && out@[0] == 0x89 && out@[1] == 0x50
            && out@[2] == 0x4e && out@[3] == 0x47 && out@[4] == 0x0d && out@[5] == 0x0a && out@[6]
            == 0x1a && out@[7] == 0x0a),
{
    let mut options = oxipng::Options::max_compression();
    options.deflater = oxipng::Deflater::Zopfli(oxipng::ZopfliOptions {
        iteration_count: std::num::NonZeroU64::new(iterations as u64).unwrap(),
        ..oxipng::ZopfliOptions::default()
    });
    options.bit_depth_reduction = false;
    options.color_type_reduction = false;
    options.palette_reduction = false;
    options.grayscale_reduction = false;
    oxipng::optimize_from_memory(png, &options)
}

/// The lossy re-encoding of the decoded input at the fixed quality, or
/// `None` when the input does not decode or the encoder rejects its pixel
/// data.
pub open spec fn spec_lossy_output(input: Seq<u8>) -> Option<Seq<u8>> {
    match decoded_image(input) {
        Option::None => None,
        Option::Some(pixels) => jpeg_encoding(pixels, 99),
    }
}

/// Decodes the input (format sniffed from the content) and re-encodes it as
/// a JPEG at a fixed high-quality setting near the top of the range. It
/// succeeds exactly when the input decodes and the encoder accepts the
/// decoded pixels, and then returns their lossy encoding: never empty,
/// opening with the JPEG start-of-image marker bytes.
pub fn compress_image_lossy_to_jpeg(input_bytes: &[u8]) -> (r: Result<Vec<u8>, Error>)
    ensures
        r is Ok <==> spec_lossy_output(input_bytes@) is Some,
        (r matches Ok(out) ==> out@ == spec_lossy_output(input_bytes@)->Some_0 && out@.len() > 0
            && out@[0] == 0xff && out@[1] == 0xd8 && out@[2] == 0xff),
        (r matches Err(Error::DecodeError) <==> decoded_image(input_bytes@) is None),
        (r matches Err(Error::EncodeError) <==> decoded_image(input_bytes@) is Some
            && spec_lossy_output(input_bytes@) is None),
        (r matches Err(e) ==> e is DecodeError || e is EncodeError),
{
    let img = match decode_image(input_bytes) {
        Ok(img) => img,
        Err(_) => {
            return Err(Error::DecodeError);
        },
    };
    match encode_jpeg(&img, 99) {
        Ok(out) => Ok(out),
        Err(_) => Err(Error::EncodeError),
    }
}

/// The bytes that a lossless re-encode returns: the PNG encoding of the
/// decoded pixels, recompressed by the exhaustive search compressor when a
/// nonzero iteration count is given; `None` when the input does not decode
/// or a pass rejects its data.
pub open spec fn spec_lossless_output(input: Seq<u8>, iterations: u8) -> Option<Seq<u8>> {
    match decoded_image(input) {
        Option::None => None,
        Option::Some(pixels) => match png_encoding(pixels) {
            Option::None => None,
            Option::Some(png) => if iterations == 0 {
                Some(png)
            } else {
                optimized_png(png, iterations)
            },
        },
    }
}

/// Decodes the input and re-encodes it losslessly as a PNG; with a nonzero
/// iteration count a recompression pass then replaces the PNG's
/// general-purpose compressor with the exhaustive search compressor at that
/// count. The pass trades CPU time for smaller output; an iteration count of
/// zero skips it, for callers who need bounded latency. It succeeds exactly
/// when the input decodes and every pass accepts its data, and then returns
/// a non-empty PNG, opening with the full eight-byte signature, that decodes
/// back to the very pixel data a direct decode of the input yields.
pub fn compress_image_lossless_to_png_with_iterations(input_bytes: &[u8], iterations: u8) -> (r:
    Result<Vec<u8>, Error>)
    ensures
        r is Ok <==> spec_lossless_output(input_bytes@, iterations) is Some,
        (r matches Ok(out) ==> out@ == spec_lossless_output(input_bytes@, iterations)->Some_0
            && decoded_image(out@) == decoded_image(input_bytes@) && out@.len() > 0 && out@[0]
            == 0x89 && out@[1] == 0x50 && out@[2] == 0x4e && out@[3] == 0x47 && out@[4] == 0x0d
            && out@[5] == 0x0a && out@[6] == 0x1a && out@[7] == 0x0a),
        (r matches Err(Error::DecodeError) <==> decoded_image(input_bytes@) is None),
        (r matches Err(Error::EncodeError) <==> decoded_image(input_bytes@) is Some
            && spec_lossless_output(input_bytes@, iterations) is None),
        (r matches Err(e) ==> e is DecodeError || e is EncodeError),
{
    let img = match decode_image(input_bytes) {
        Ok(img) => img,
        Err(_) => {
            return Err(Error::DecodeError);
        },
    };
    let png = match encode_png(&img) {
        Ok(png) => png,
        Err(_) => {
            return Err(Error::EncodeError);
        },
    };
    if iterations == 0 {
        return Ok(png);
    }
    match optimize_png(&png, iterations) {
        Ok(out) => Ok(out),
        Err(_) => Err(Error::EncodeError),
    }
}

/// The lossless re-encoding at the full iteration count of the exhaustive
/// recompression pass. Documentedly slow: it trades CPU time for materially
/// smaller output; callers who need bounded latency can pick the iteration
/// count themselves through the sibling above.
pub fn compress_image_lossless_to_png(input_bytes: &[u8]) -> (r: Result<Vec<u8>, Error>)
    ensures
        r is Ok <==> spec_lossless_output(input_bytes@, 255) is Some,
        (r matches Ok(out) ==> out@ == spec_lossless_output(input_bytes@, 255)->Some_0
            && decoded_image(out@) == decoded_image(input_bytes@) && out@.len() > 0 && out@[0]
            == 0x89 && out@[1] == 0x50 && out@[2] == 0x4e && out@[3] == 0x47 && out@[4] == 0x0d
            && out@[5] == 0x0a && out@[6] == 0x1a && out@[7] == 0x0a),
        (r matches Err(Error::DecodeError) <==> decoded_image(input_bytes@) is None),
        (r matches Err(Error::EncodeError) <==> decoded_image(input_bytes@) is Some
            && spec_lossless_output(input_bytes@, 255) is None),
        (r matches Err(e) ==> e is DecodeError || e is EncodeError),
{
    compress_image_lossless_to_png_with_iterations(input_bytes, 255)
}

} // verus!
