use artimate::event::{PersistenceError, SaveRequest};
use artimate::persist::{encode_save_request, frame_filename};

#[test]
fn filenames_are_zero_padded_to_four_digits() {
    assert_eq!(frame_filename(0), "frame_0000.png");
    assert_eq!(frame_filename(7), "frame_0007.png");
    assert_eq!(frame_filename(42), "frame_0042.png");
    assert_eq!(frame_filename(123), "frame_0123.png");
    assert_eq!(frame_filename(1234), "frame_1234.png");
    assert_eq!(frame_filename(99999), "frame_99999.png");
    assert_eq!(frame_filename(4294967295), "frame_4294967295.png");
}

fn request(pixels: Vec<u8>, width: u32, height: u32) -> SaveRequest {
    SaveRequest { pixels, filename: frame_filename(0), width, height }
}

#[test]
fn encoding_then_decoding_returns_the_original_pixels() {
    // A 2x2 image with four distinct pixels.
    let pixels = vec![
        255, 0, 0, 255, // red
        0, 255, 0, 255, // green
        0, 0, 255, 255, // blue
        10, 20, 30, 40, // translucent grey
    ];
    let encoded = encode_save_request(&request(pixels.clone(), 2, 2)).unwrap();
    assert_ne!(encoded, pixels);

    let decoder = png::Decoder::new(std::io::Cursor::new(encoded));
    let mut reader = decoder.read_info().unwrap();
    let mut decoded = vec![0u8; reader.output_buffer_size()];
    let info = reader.next_frame(&mut decoded).unwrap();
    assert_eq!(info.width, 2);
    assert_eq!(info.height, 2);
    assert_eq!(info.color_type, png::ColorType::Rgba);
    assert_eq!(info.bit_depth, png::BitDepth::Eight);
    assert_eq!(&decoded[..info.buffer_size()], &pixels[..]);
}

#[test]
fn encoded_bytes_carry_the_png_signature() {
    let encoded = encode_save_request(&request(vec![0u8; 4], 1, 1)).unwrap();
    assert_eq!(&encoded[..8], &[137, 80, 78, 71, 13, 10, 26, 10]);
}

#[test]
fn wrong_buffer_length_fails_to_encode() {
    let result = encode_save_request(&request(vec![0u8; 5], 1, 1));
    assert_eq!(result, Err(PersistenceError::EncodeFailed));
}

#[test]
fn zero_dimensions_fail_to_encode() {
    let result = encode_save_request(&request(Vec::new(), 0, 4));
    assert_eq!(result, Err(PersistenceError::EncodeFailed));
    let result = encode_save_request(&request(Vec::new(), 4, 0));
    assert_eq!(result, Err(PersistenceError::EncodeFailed));
}

#[test]
fn same_request_encodes_to_the_same_bytes() {
    let pixels = vec![1, 2, 3, 4, 5, 6, 7, 8];
    let a = encode_save_request(&request(pixels.clone(), 2, 1)).unwrap();
    let b = encode_save_request(&request(pixels, 2, 1)).unwrap();
    assert_eq!(a, b);
}
