use image::{DynamicImage, GrayImage, ImageFormat, RgbImage, RgbaImage};
use img_atlas::decode::{
    adapt_fast, adapt_generic, decode_generic, decode_img, decode_jpeg, dispatch,
    image_from_decoded, DecodeError, Decoded, Route,
};
use std::io::Cursor;

fn encode(img: &DynamicImage, format: ImageFormat) -> Vec<u8> {
    let mut out = Vec::new();
    img.write_to(&mut Cursor::new(&mut out), format).unwrap();
    out
}

/// A 3 by 2 image in which no two bytes are alike.
fn sample_rgba() -> (Vec<u8>, DynamicImage) {
    let pixels: Vec<u8> = (0..3 * 2 * 4).map(|b| (b * 9 + 3) as u8).collect();
    let img = DynamicImage::ImageRgba8(RgbaImage::from_raw(3, 2, pixels.clone()).unwrap());
    (pixels, img)
}

fn solid_rgb(width: u32, height: u32, colour: [u8; 3]) -> DynamicImage {
    DynamicImage::ImageRgb8(RgbImage::from_pixel(width, height, image::Rgb(colour)))
}

fn is_codec_error<T: std::fmt::Debug>(r: &Result<T, DecodeError>) -> bool {
    matches!(r, Err(DecodeError::Codec(text)) if !text.is_empty())
}

const MISMATCH: &str = "decoder returned a pixel buffer that does not match the image dimensions";

#[test]
fn marker_and_wish_route_to_the_fast_path() {
    assert_eq!(dispatch(&vec![0xff, 0xd8, 0xff], true), Route::Fast);
    assert_eq!(dispatch(&vec![0xff, 0xd8, 0x00], true), Route::Fast);
    assert_eq!(dispatch(&vec![0xff, 0xd8, 0xff, 0xe0, 1, 2, 3], true), Route::Fast);
}

#[test]
fn fast_path_is_never_taken_unasked() {
    assert_eq!(dispatch(&vec![0xff, 0xd8, 0xff], false), Route::Generic);
    assert_eq!(dispatch(&vec![0xff, 0xd8, 0xff, 0xe0, 1, 2, 3], false), Route::Generic);
    assert_eq!(dispatch(&Vec::new(), false), Route::Generic);
}

#[test]
fn inputs_without_the_marker_route_to_the_generic_path() {
    for prefer_fast in [true, false] {
        assert_eq!(dispatch(&Vec::new(), prefer_fast), Route::Generic);
        assert_eq!(dispatch(&vec![0xff], prefer_fast), Route::Generic);
        assert_eq!(dispatch(&vec![0xff, 0xd9, 0xff], prefer_fast), Route::Generic);
        assert_eq!(dispatch(&vec![0xfe, 0xd8, 0xff], prefer_fast), Route::Generic);
        assert_eq!(dispatch(&vec![0xd8, 0xff, 0xd8], prefer_fast), Route::Generic);
        assert_eq!(dispatch(&vec![0x89, b'P', b'N', b'G'], prefer_fast), Route::Generic);
    }
}

#[test]
fn marker_with_nothing_after_it_routes_to_the_generic_path() {
    assert_eq!(dispatch(&vec![0xff, 0xd8], true), Route::Generic);
    assert_eq!(dispatch(&vec![0xff, 0xd8], false), Route::Generic);
}

#[test]
fn decoder_output_with_matching_dimensions_becomes_an_image() {
    let img = image_from_decoded(Decoded { pixels: vec![7; 24], dims: Some((2, 3)) }).unwrap();
    assert_eq!((img.width(), img.height()), (2, 3));
    assert_eq!(img.pixels(), &vec![7u8; 24]);
    let empty = image_from_decoded(Decoded { pixels: Vec::new(), dims: Some((0, 5)) }).unwrap();
    assert_eq!((empty.width(), empty.height()), (0, 5));
}

#[test]
fn decoder_output_without_dimensions_is_missing_dimensions() {
    assert_eq!(
        image_from_decoded(Decoded { pixels: vec![1, 2, 3, 4], dims: None }),
        Err(DecodeError::MissingDimensions)
    );
    assert_eq!(
        image_from_decoded(Decoded { pixels: Vec::new(), dims: None }),
        Err(DecodeError::MissingDimensions)
    );
}

#[test]
fn decoder_output_of_the_wrong_length_is_a_codec_error() {
    for (len, dims) in [(23, (2, 3)), (25, (2, 3)), (0, (1, 1)), (4, (0, 0)), (0, (usize::MAX, usize::MAX))] {
        assert_eq!(
            image_from_decoded(Decoded { pixels: vec![0; len], dims: Some(dims) }),
            Err(DecodeError::Codec(MISMATCH.to_string()))
        );
    }
}

#[test]
fn fast_path_passes_the_decoder_diagnostic_on() {
    assert_eq!(
        adapt_fast(Err("bad huffman table".to_string())),
        Err(DecodeError::Codec("bad huffman table".to_string()))
    );
    assert_eq!(adapt_fast(Err(String::new())), Err(DecodeError::Codec(String::new())));
}

#[test]
fn fast_path_adapts_what_the_decoder_returned() {
    let img = adapt_fast(Ok(Decoded { pixels: vec![1, 2, 3, 4], dims: Some((1, 1)) })).unwrap();
    assert_eq!(img.pixels(), &vec![1u8, 2, 3, 4]);
    assert_eq!(
        adapt_fast(Ok(Decoded { pixels: vec![1, 2, 3, 4], dims: None })),
        Err(DecodeError::MissingDimensions)
    );
    assert_eq!(
        adapt_fast(Ok(Decoded { pixels: vec![1, 2, 3], dims: Some((1, 1)) })),
        Err(DecodeError::Codec(MISMATCH.to_string()))
    );
}

#[test]
fn generic_path_tells_unrecognized_from_failed() {
    assert_eq!(adapt_generic(None), Err(DecodeError::FormatUnrecognized));
    assert_eq!(
        adapt_generic(Some(Err("unexpected end of file".to_string()))),
        Err(DecodeError::Codec("unexpected end of file".to_string()))
    );
    let img = adapt_generic(Some(Ok(Decoded { pixels: vec![9; 8], dims: Some((2, 1)) }))).unwrap();
    assert_eq!((img.width(), img.height()), (2, 1));
    assert_eq!(
        adapt_generic(Some(Ok(Decoded { pixels: vec![9; 8], dims: Some((1, 1)) }))),
        Err(DecodeError::Codec(MISMATCH.to_string()))
    );
}

#[test]
fn png_decodes_to_its_pixels() {
    let (pixels, img) = sample_rgba();
    let decoded = decode_generic(&encode(&img, ImageFormat::Png)).unwrap();
    assert_eq!((decoded.width(), decoded.height()), (3, 2));
    assert_eq!(decoded.pixels(), &pixels);
}

#[test]
fn bmp_and_gif_decode_through_the_generic_path() {
    let img = solid_rgb(4, 3, [200, 100, 50]);
    for format in [ImageFormat::Bmp, ImageFormat::Gif] {
        let decoded = decode_generic(&encode(&img, format)).unwrap();
        assert_eq!((decoded.width(), decoded.height()), (4, 3));
        assert_eq!(decoded.pixels().len(), 4 * 3 * 4);
        for texel in decoded.pixels().chunks(4) {
            assert_eq!(texel, &[200, 100, 50, 255]);
        }
    }
}

#[test]
fn grey_image_comes_out_as_rgba() {
    let grey = GrayImage::from_raw(2, 2, vec![0, 64, 128, 255]).unwrap();
    let decoded = decode_generic(&encode(&DynamicImage::ImageLuma8(grey), ImageFormat::Png)).unwrap();
    assert_eq!((decoded.width(), decoded.height()), (2, 2));
    assert_eq!(
        decoded.pixels(),
        &vec![0u8, 0, 0, 255, 64, 64, 64, 255, 128, 128, 128, 255, 255, 255, 255, 255]
    );
}

#[test]
fn decoded_buffer_has_four_bytes_for_every_texel() {
    for (w, h) in [(1u32, 1u32), (5, 3), (16, 16), (17, 9)] {
        let bytes = encode(&solid_rgb(w, h, [1, 2, 3]), ImageFormat::Png);
        for prefer_fast in [true, false] {
            let img = decode_img(&bytes, prefer_fast).unwrap();
            assert_eq!(img.pixels().len(), img.width() * img.height() * 4);
            assert_eq!((img.width(), img.height()), (w as usize, h as usize));
        }
        let bytes = encode(&solid_rgb(w, h, [1, 2, 3]), ImageFormat::Jpeg);
        for prefer_fast in [true, false] {
            let img = decode_img(&bytes, prefer_fast).unwrap();
            assert_eq!(img.pixels().len(), img.width() * img.height() * 4);
            assert_eq!((img.width(), img.height()), (w as usize, h as usize));
        }
    }
}

#[test]
fn bytes_of_no_format_are_unrecognized() {
    assert_eq!(decode_generic(&b"certainly not an image".to_vec()), Err(DecodeError::FormatUnrecognized));
    assert_eq!(decode_generic(&Vec::new()), Err(DecodeError::FormatUnrecognized));
    assert_eq!(decode_generic(&vec![0xff, 0xd8]), Err(DecodeError::FormatUnrecognized));
}

#[test]
fn damaged_png_is_a_codec_error() {
    let (_, img) = sample_rgba();
    let mut bytes = encode(&img, ImageFormat::Png);
    bytes.truncate(20);
    assert!(is_codec_error(&decode_generic(&bytes)));
}

#[test]
fn jpeg_decodes_on_the_fast_path() {
    let bytes = encode(&solid_rgb(16, 8, [200, 30, 90]), ImageFormat::Jpeg);
    assert_eq!(&bytes[0..2], &[0xff, 0xd8]);
    let img = decode_jpeg(&bytes).unwrap();
    assert_eq!((img.width(), img.height()), (16, 8));
    assert_eq!(img.pixels().len(), 16 * 8 * 4);
    for texel in img.pixels().chunks(4) {
        assert!((texel[0] as i32 - 200).abs() <= 4);
        assert!((texel[1] as i32 - 30).abs() <= 4);
        assert!((texel[2] as i32 - 90).abs() <= 4);
        assert_eq!(texel[3], 255);
    }
}

#[test]
fn fast_path_gives_other_formats_up() {
    let (_, img) = sample_rgba();
    assert!(is_codec_error(&decode_jpeg(&encode(&img, ImageFormat::Png))));
    assert!(is_codec_error(&decode_jpeg(&Vec::new())));
    assert!(is_codec_error(&decode_jpeg(&vec![0xff, 0xd8, 0x00, 0x00])));
}

#[test]
fn decode_img_takes_the_fast_path_for_a_marked_input() {
    let bytes = encode(&solid_rgb(8, 8, [10, 20, 30]), ImageFormat::Jpeg);
    assert_eq!(decode_img(&bytes, true), decode_jpeg(&bytes));
    assert_eq!(decode_img(&bytes, false), decode_generic(&bytes));
}

#[test]
fn route_shows_in_the_error_of_a_damaged_input() {
    // the marker is there, but the third byte is none that follows it in a
    // JPEG stream: the fast path fails in its decoder, the generic path does
    // not know the format
    let bytes = vec![0xff, 0xd8, 0x00, 0x01, 0x02];
    assert!(is_codec_error(&decode_img(&bytes, true)));
    assert_eq!(decode_img(&bytes, true), decode_jpeg(&bytes));
    assert_eq!(decode_img(&bytes, false), Err(DecodeError::FormatUnrecognized));
}

#[test]
fn decode_img_takes_the_generic_path_for_an_unmarked_input() {
    let (pixels, img) = sample_rgba();
    let bytes = encode(&img, ImageFormat::Png);
    for prefer_fast in [true, false] {
        let decoded = decode_img(&bytes, prefer_fast).unwrap();
        assert_eq!(decoded.pixels(), &pixels);
        assert_eq!(decode_img(&bytes, prefer_fast), decode_generic(&bytes));
    }
    assert_eq!(decode_img(&vec![0xff, 0xd8], true), Err(DecodeError::FormatUnrecognized));
    assert_eq!(decode_img(&b"plain text".to_vec(), true), Err(DecodeError::FormatUnrecognized));
}

#[test]
fn decoding_twice_gives_the_same_image() {
    let bytes = encode(&solid_rgb(9, 7, [90, 80, 70]), ImageFormat::Jpeg);
    assert_eq!(decode_jpeg(&bytes), decode_jpeg(&bytes));
    let (_, img) = sample_rgba();
    let bytes = encode(&img, ImageFormat::Png);
    assert_eq!(decode_generic(&bytes), decode_generic(&bytes));
}
