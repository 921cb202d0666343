use tga_encoder::encoder::{pixel_data, swap_first_and_third};
use tga_encoder::header::Header;
use tga_encoder::{ColorType, EncoderError, ImageError, TgaEncoder};

fn encode_to_vec(buf: &[u8], width: u32, height: u32, c: ColorType) -> (Result<(), ImageError>, Vec<u8>) {
    let mut out = Vec::new();
    let r = TgaEncoder::new(&mut out).encode(buf, width, height, c);
    (r, out)
}

#[test]
fn single_rgb_pixel_exact_file() {
    let (r, out) = encode_to_vec(&[0, 1, 2], 1, 1, ColorType::Rgb8);
    assert_eq!(r, Ok(()));
    assert_eq!(
        out,
        vec![0, 0, 2, 0, 0, 0, 0, 0, 0, 0, 0, 0, 1, 0, 1, 0, 24, 0x20, 2, 1, 0]
    );
}

#[test]
fn gray_alpha_header_fields() {
    let h = Header::from_pixel_info(ColorType::La8, 300, 2).unwrap();
    assert_eq!(h.image_type, 3);
    assert_eq!(h.image_width, 300);
    assert_eq!(h.image_height, 2);
    assert_eq!(h.pixel_depth, 16);
    assert_eq!(h.image_desc, 0x28);
    assert_eq!(h.id_length, 0);
    assert_eq!(h.map_type, 0);
}

#[test]
fn bgra_header_fields() {
    let h = Header::from_pixel_info(ColorType::Bgra8, 1, 1).unwrap();
    assert_eq!((h.image_type, h.pixel_depth, h.image_desc), (2, 32, 0x28));
    let h = Header::from_pixel_info(ColorType::L8, 1, 1).unwrap();
    assert_eq!((h.image_type, h.pixel_depth, h.image_desc), (3, 8, 0x20));
}

#[test]
fn header_sixteen_bit_fields_are_little_endian() {
    let mut h = Header::empty();
    h.map_origin = 0x0102;
    h.map_length = 0x0304;
    h.x_origin = 0x0506;
    h.y_origin = 0x0708;
    h.image_width = 0x1234;
    h.image_height = 0xabcd;
    h.pixel_depth = 7;
    h.image_desc = 9;
    let mut out = vec![0xee];
    h.write_to(&mut out);
    assert_eq!(
        out,
        vec![0xee, 0, 0, 0, 0x02, 0x01, 0x04, 0x03, 0, 0x06, 0x05, 0x08, 0x07, 0x34, 0x12, 0xcd, 0xab, 7, 9]
    );
}

#[test]
fn largest_sides_are_accepted() {
    let h = Header::from_pixel_info(ColorType::L8, 65535, 65535).unwrap();
    assert_eq!(h.image_width, 65535);
    assert_eq!(h.image_height, 65535);
}

#[test]
fn output_length_is_header_plus_pixels() {
    let buf = vec![7u8; 3 * 2 * 4];
    let (r, out) = encode_to_vec(&buf, 3, 2, ColorType::Rgba8);
    assert_eq!(r, Ok(()));
    assert_eq!(out.len(), 18 + 3 * 2 * 4);
}

#[test]
fn both_sides_too_large_names_width() {
    let (r, out) = encode_to_vec(&[], 70000, 80000, ColorType::L8);
    assert_eq!(r, Err(ImageError::Encoding(EncoderError::WidthInvalid(70000))));
    assert!(out.is_empty());
}

#[test]
fn height_too_large_writes_nothing() {
    let (r, out) = encode_to_vec(&[], 65535, 65536, ColorType::Rgb8);
    assert_eq!(r, Err(ImageError::Encoding(EncoderError::HeightInvalid(65536))));
    assert!(out.is_empty());
}

#[test]
fn zero_width_gives_zero_header_for_any_layout() {
    let (r, out) = encode_to_vec(&[], 0, 5, ColorType::Rgb16);
    assert_eq!(r, Ok(()));
    assert_eq!(out, vec![0u8; 18]);
    let (r, out) = encode_to_vec(&[], 70000, 0, ColorType::L8);
    assert_eq!(r, Ok(()));
    assert_eq!(out, vec![0u8; 18]);
}

#[test]
fn zero_height_still_writes_pixels() {
    let (r, out) = encode_to_vec(&[9, 8, 7], 4, 0, ColorType::Rgb8);
    assert_eq!(r, Ok(()));
    assert_eq!(&out[..18], &[0u8; 18]);
    assert_eq!(&out[18..], &[7, 8, 9]);
}

#[test]
fn unsupported_layout_is_named_and_writes_nothing() {
    let (r, out) = encode_to_vec(&[0; 8], 2, 2, ColorType::L16);
    assert_eq!(r, Err(ImageError::Unsupported(ColorType::L16)));
    assert!(out.is_empty());
    let (r, _) = encode_to_vec(&[0; 8], 1, 1, ColorType::Rgba16);
    assert_eq!(r, Err(ImageError::Unsupported(ColorType::Rgba16)));
}

#[test]
fn oversized_side_comes_before_unsupported_layout() {
    let (r, _) = encode_to_vec(&[], 1, 70000, ColorType::La16);
    assert_eq!(r, Err(ImageError::Encoding(EncoderError::HeightInvalid(70000))));
}

#[test]
fn rgba_pixels_swap_first_and_third_only() {
    let buf = [1, 2, 3, 4, 5, 6, 7, 8];
    let (r, out) = encode_to_vec(&buf, 2, 1, ColorType::Rgba8);
    assert_eq!(r, Ok(()));
    assert_eq!(&out[18..], &[3, 2, 1, 4, 7, 6, 5, 8]);
}

#[test]
fn bgr_and_gray_pixels_are_kept() {
    let buf = [1, 2, 3, 4, 5, 6];
    let (_, out) = encode_to_vec(&buf, 2, 1, ColorType::Bgr8);
    assert_eq!(&out[18..], &buf);
    let (_, out) = encode_to_vec(&buf, 6, 1, ColorType::L8);
    assert_eq!(&out[18..], &buf);
    let (_, out) = encode_to_vec(&buf, 3, 1, ColorType::La8);
    assert_eq!(&out[18..], &buf);
}

#[test]
fn caller_buffer_is_not_changed() {
    let buf = vec![1u8, 2, 3];
    let copy = pixel_data(&buf, ColorType::Rgb8);
    assert_eq!(copy, vec![3, 2, 1]);
    assert_eq!(buf, vec![1, 2, 3]);
}

#[test]
fn output_is_appended_to_what_the_writer_holds() {
    let mut out = vec![42u8];
    TgaEncoder::new(&mut out).encode(&[5], 1, 1, ColorType::L8).unwrap();
    assert_eq!(out.len(), 1 + 18 + 1);
    assert_eq!(out[0], 42);
    assert_eq!(out[19], 5);
}

#[test]
fn swap_with_wider_stride() {
    let mut v = vec![1, 2, 3, 4, 5, 6, 7, 8, 9, 10];
    swap_first_and_third(&mut v, 5);
    assert_eq!(v, vec![3, 2, 1, 4, 5, 8, 7, 6, 9, 10]);
    let mut empty: Vec<u8> = Vec::new();
    swap_first_and_third(&mut empty, 3);
    assert!(empty.is_empty());
}

#[test]
fn bytes_per_pixel_of_each_layout() {
    assert_eq!(ColorType::L8.bytes_per_pixel(), 1);
    assert_eq!(ColorType::La8.bytes_per_pixel(), 2);
    assert_eq!(ColorType::Rgb8.bytes_per_pixel(), 3);
    assert_eq!(ColorType::Rgba8.bytes_per_pixel(), 4);
    assert_eq!(ColorType::Bgr8.bytes_per_pixel(), 3);
    assert_eq!(ColorType::Bgra8.bytes_per_pixel(), 4);
    assert_eq!(ColorType::Rgb16.bytes_per_pixel(), 6);
    assert_eq!(ColorType::Rgba16.bytes_per_pixel(), 8);
}
