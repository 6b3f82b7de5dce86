//! Decoding of one compressed image: the choice between the JPEG fast path
//! and the generic path, and the adapters that turn what a decoder hands back
//! into an [`Image`] or a [`DecodeError`].

use vstd::prelude::*;
use crate::raster::{rgba_bytes, rgba_len, Image, ImageView};

verus! {

/// What a decoder hands back when it accepts its input: the RGBA8 pixel
/// bytes, and the image's width and height if it can tell them.
pub struct Decoded {
    pub pixels: Vec<u8>,
    pub dims: Option<(usize, usize)>,
}

/// The mathematical content of a [`Decoded`].
pub struct DecodedView {
    pub pixels: Seq<u8>,
    pub dims: Option<(usize, usize)>,
}

impl View for Decoded {
    type V = DecodedView;

    open spec fn view(&self) -> DecodedView {
        DecodedView { pixels: self.pixels@, dims: self.dims }
    }
}

/// Why an input could not be decoded.
#[derive(Clone, Debug, PartialEq, Eq)]
pub enum DecodeError {
    /// The input's leading bytes belong to no known image format.
    FormatUnrecognized,
    /// A decoder gave the input up; the text is the decoder's diagnostic.
    Codec(String),
    /// The decoder produced pixels but could not tell the image's dimensions.
    MissingDimensions,
}

/// The mathematical content of a [`DecodeError`].
pub enum Failure {
    FormatUnrecognized,
    Codec(Seq<char>),
    MissingDimensions,
}

impl View for DecodeError {
    type V = Failure;

    open spec fn view(&self) -> Failure {
        match self {
            DecodeError::FormatUnrecognized => Failure::FormatUnrecognized,
            DecodeError::Codec(text) => Failure::Codec(text@),
            DecodeError::MissingDimensions => Failure::MissingDimensions,
        }
    }
}

/// The content of the result of a decode.
pub open spec fn result_view(r: Result<Image, DecodeError>) -> Result<ImageView, Failure> {
    match r {
        Ok(img) => Ok(img@),
        Err(e) => Err(e@),
    }
}

/// Which decoder an input is handed to.
#[derive(Clone, Copy, Debug, PartialEq, Eq, Structural)]
pub enum Route {
    /// The decoder specialised for JPEG.
    Fast,
    /// The decoder that detects the format itself.
    Generic,
}

/// The input starts with the two bytes that open every JPEG stream, and goes
/// on after them.
pub open spec fn has_jpeg_marker(bytes: Seq<u8>) -> bool {
    bytes.len() > 2 && bytes[0] == 0xff && bytes[1] == 0xd8
}

/// The decoder that `bytes` goes to: the fast one only where it is wanted and
/// the input carries the JPEG marker; the generic one otherwise.
pub open spec fn route_of(bytes: Seq<u8>, prefer_fast: bool) -> Route {
    if prefer_fast && has_jpeg_marker(bytes) {
        Route::Fast
    } else {
        Route::Generic
    }
}

/// Chooses the decoder for `encoded` by its leading bytes.
pub fn dispatch(encoded: &Vec<u8>, prefer_fast: bool) -> (route: Route)
    ensures
        route == route_of(encoded@, prefer_fast),
{
    if prefer_fast && encoded.len() > 2 && encoded[0] == 0xff && encoded[1] == 0xd8 {
        Route::Fast
    } else {
        Route::Generic
    }
}

/// The diagnostic of the error that reports a decoder whose pixel buffer is
/// not as long as its dimensions ask for.
pub open spec fn length_mismatch_text() -> Seq<char> {
    "decoder returned a pixel buffer that does not match the image dimensions"@
}

/// The image that a decoder's output stands for, or the reason why it stands
/// for none.
pub open spec fn adapted(decoded: DecodedView) -> Result<ImageView, Failure> {
    match decoded.dims {
        None => Err(Failure::MissingDimensions),
        Some((width, height)) => if decoded.pixels.len() == rgba_len(width as int, height as int) {
            Ok(ImageView { pixels: decoded.pixels, width: width as nat, height: height as nat })
        } else {
            Err(Failure::Codec(length_mismatch_text()))
        },
    }
}

/// Turns a decoder's output into an image. Fails with `MissingDimensions`
/// where the decoder told no dimensions, and with `Codec` where the buffer is
/// not `width * height * 4` bytes long.
pub fn image_from_decoded(decoded: Decoded) -> (r: Result<Image, DecodeError>)
    ensures
        result_view(r) == adapted(decoded@),
{
    match decoded.dims {
        None => Err(DecodeError::MissingDimensions),
        Some((width, height)) => match Image::new(decoded.pixels, width, height) {
            Some(img) => Ok(img),
            None => Err(
                DecodeError::Codec(
                    "decoder returned a pixel buffer that does not match the image dimensions".to_owned(),
                ),
            ),
        },
    }
}

/// The content of what a decoder returned: its output, or its diagnostic.
pub open spec fn outcome_view(outcome: Result<Decoded, String>) -> Result<DecodedView, Seq<char>> {
    match outcome {
        Ok(decoded) => Ok(decoded@),
        Err(text) => Err(text@),
    }
}

/// The content of what the generic decoder returned: nothing where it knew
/// no format for the input, else what the format's decoder returned.
pub open spec fn guess_view(outcome: Option<Result<Decoded, String>>) -> Option<
    Result<DecodedView, Seq<char>>,
> {
    match outcome {
        None => None,
        Some(inner) => Some(outcome_view(inner)),
    }
}

/// The result of the fast path for what its decoder returned.
pub open spec fn fast_result(outcome: Result<DecodedView, Seq<char>>) -> Result<
    ImageView,
    Failure,
> {
    match outcome {
        Ok(decoded) => adapted(decoded),
        Err(text) => Err(Failure::Codec(text)),
    }
}

/// The result of the generic path for what its decoder returned.
pub open spec fn generic_result(outcome: Option<Result<DecodedView, Seq<char>>>) -> Result<
    ImageView,
    Failure,
> {
    match outcome {
        None => Err(Failure::FormatUnrecognized),
        Some(Ok(decoded)) => adapted(decoded),
        Some(Err(text)) => Err(Failure::Codec(text)),
    }
}

/// Turns what the fast path's decoder returned into the fast path's result:
/// the image, `Codec` with the decoder's diagnostic where it failed, or what
/// [`image_from_decoded`] reports of its output.
pub fn adapt_fast(outcome: Result<Decoded, String>) -> (r: Result<Image, DecodeError>)
    ensures
        result_view(r) == fast_result(outcome_view(outcome)),
{
    match outcome {
        Ok(decoded) => image_from_decoded(decoded),
        Err(text) => Err(DecodeError::Codec(text)),
    }
}

/// Turns what the generic path's decoder returned into the generic path's
/// result: `FormatUnrecognized` where no format was found, `Codec` with the
/// decoder's diagnostic where decoding failed, else what
/// [`image_from_decoded`] makes of the output.
pub fn adapt_generic(outcome: Option<Result<Decoded, String>>) -> (r: Result<Image, DecodeError>)
    ensures
        result_view(r) == generic_result(guess_view(outcome)),
{
    match outcome {
        None => Err(DecodeError::FormatUnrecognized),
        Some(Ok(decoded)) => image_from_decoded(decoded),
        Some(Err(text)) => Err(DecodeError::Codec(text)),
    }
}

/// What the JPEG decoder of the `image` crate returns for `bytes`, with the
/// pixels converted to RGBA8: the pixel bytes and dimensions, or the text of
/// the decoder's error.
pub uninterp spec fn jpeg_decoding(bytes: Seq<u8>) -> Result<DecodedView, Seq<char>>;

/// What the `image` crate returns for `bytes` when it picks the decoder by
/// the input's leading bytes: nothing where they belong to no format it
/// knows, else what that format's decoder returns, with the pixels converted
/// to RGBA8.
pub uninterp spec fn guessed_decoding(bytes: Seq<u8>) -> Option<Result<DecodedView, Seq<char>>>;

/// Calls `image::load_from_memory_with_format` with `ImageFormat::Jpeg`, and
/// on success `DynamicImage::to_rgba8`, `ImageBuffer::into_raw`,
/// `DynamicImage::width` and `DynamicImage::height`.
///
/// Trusted: the outcome depends on the input bytes alone. Nothing is claimed
/// of what it is.
#[verifier::external_body]
fn run_jpeg_decoder(encoded: &Vec<u8>) -> (outcome: Result<Decoded, String>)
    ensures
        outcome_view(outcome) == jpeg_decoding(encoded@),
{
    match image::load_from_memory_with_format(encoded, image::ImageFormat::Jpeg) {
        Ok(img) => Ok(
            Decoded {
                pixels: img.to_rgba8().into_raw(),
                dims: Some((img.width() as usize, img.height() as usize)),
            },
        ),
        Err(e) => Err(format!("{e:?}")),
    }
}

/// Calls `image::guess_format`, and where that names a format,
/// `image::load_from_memory_with_format` with it, and on success
/// `DynamicImage::to_rgba8`, `ImageBuffer::into_raw`, `DynamicImage::width`
/// and `DynamicImage::height`.
///
/// Trusted: the outcome depends on the input bytes alone. Nothing is claimed
/// of what it is.
#[verifier::external_body]
fn run_guessing_decoder(encoded: &Vec<u8>) -> (outcome: Option<Result<Decoded, String>>)
    ensures
        guess_view(outcome) == guessed_decoding(encoded@),
{
    let format = match image::guess_format(encoded) {
        Ok(format) => format,
        Err(_) => return None,
    };
    match image::load_from_memory_with_format(encoded, format) {
        Ok(img) => Some(Ok(
            Decoded {
                pixels: img.to_rgba8().into_raw(),
                dims: Some((img.width() as usize, img.height() as usize)),
            },
        )),
        Err(e) => Some(Err(format!("{e:?}"))),
    }
}

/// What decoding `bytes` gives: the fast path's result where the input is
/// routed there, the generic path's otherwise.
pub open spec fn decoded_image(bytes: Seq<u8>, prefer_fast: bool) -> Result<ImageView, Failure> {
    match route_of(bytes, prefer_fast) {
        Route::Fast => fast_result(jpeg_decoding(bytes)),
        Route::Generic => generic_result(guessed_decoding(bytes)),
    }
}

/// An input with the JPEG marker goes to the fast path whenever the fast path
/// is wanted, and its result is the fast path's, never the generic one's.
pub proof fn lemma_marker_routes_fast(bytes: Seq<u8>)
    requires
        bytes.len() > 2,
        bytes[0] == 0xff,
        bytes[1] == 0xd8,
    ensures
        route_of(bytes, true) == Route::Fast,
        decoded_image(bytes, true) == fast_result(jpeg_decoding(bytes)),
{
}

/// An input without the JPEG marker goes to the generic path, whether or not
/// the fast path is wanted, and so does every input where it is not wanted;
/// the result is then the generic path's.
pub proof fn lemma_generic_otherwise(bytes: Seq<u8>, prefer_fast: bool)
    requires
        !prefer_fast || !has_jpeg_marker(bytes),
    ensures
        route_of(bytes, prefer_fast) == Route::Generic,
        decoded_image(bytes, prefer_fast) == generic_result(guessed_decoding(bytes)),
{
}

/// Whatever is decoded, by either path, is an image whose buffer holds four
/// bytes for every texel.
pub proof fn lemma_decoded_image_wf(bytes: Seq<u8>, prefer_fast: bool)
    ensures
        decoded_image(bytes, prefer_fast) matches Ok(img) ==> img.wf(),
{
}

/// Decodes a JPEG stream into an RGBA8 image: the fast path.
pub fn decode_jpeg(encoded: &Vec<u8>) -> (r: Result<Image, DecodeError>)
    ensures
        result_view(r) == fast_result(jpeg_decoding(encoded@)),
        r matches Ok(img) ==> img@.wf(),
{
    adapt_fast(run_jpeg_decoder(encoded))
}

/// Decodes an image of any format that its leading bytes give away into an
/// RGBA8 image: the generic path.
pub fn decode_generic(encoded: &Vec<u8>) -> (r: Result<Image, DecodeError>)
    ensures
        result_view(r) == generic_result(guessed_decoding(encoded@)),
        r matches Ok(img) ==> img@.wf(),
{
    adapt_generic(run_guessing_decoder(encoded))
}

/// Decodes one image into RGBA8. The input goes to the fast path where
/// `use_fast_jpeg` is set and it carries the JPEG marker, and to the generic
/// path otherwise; the error is the one of the path taken.
pub fn decode_img(encoded: &Vec<u8>, use_fast_jpeg: bool) -> (r: Result<Image, DecodeError>)
    ensures
        result_view(r) == decoded_image(encoded@, use_fast_jpeg),
        r matches Ok(img) ==> img@.wf(),
{
    match dispatch(encoded, use_fast_jpeg) {
        Route::Fast => decode_jpeg(encoded),
        Route::Generic => decode_generic(encoded),
    }
}

} // verus!
