use vstd::prelude::*;
use byteorder::{LittleEndian, WriteBytesExt};
use crate::color::ColorType;
use crate::error::{EncoderError, ImageError};

verus! {

/// Image type code of uncompressed true-color data.
pub const RAW_TRUE_COLOR: u8 = 2;

/// Image type code of uncompressed grayscale data.
pub const RAW_GRAY_SCALE: u8 = 3;

/// Bits of the image descriptor that count the alpha bits of a pixel.
pub const ALPHA_BIT_MASK: u8 = 0x0f;

/// Bit of the image descriptor that puts the first row at the top.
pub const SCREEN_ORIGIN_BIT_MASK: u8 = 0x20;

/// The 18-byte header that precedes the pixel data.
#[derive(Clone, Copy, Debug, PartialEq, Eq, Structural, Hash)]
pub struct Header {
    pub id_length: u8,
    pub map_type: u8,
    pub image_type: u8,
    pub map_origin: u16,
    pub map_length: u16,
    pub map_entry_size: u8,
    pub x_origin: u16,
    pub y_origin: u16,
    pub image_width: u16,
    pub image_height: u16,
    pub pixel_depth: u8,
    pub image_desc: u8,
}

/// The header with every field zero.
pub open spec fn zero_header() -> Header {
    Header {
        id_length: 0,
        map_type: 0,
        image_type: 0,
        map_origin: 0,
        map_length: 0,
        map_entry_size: 0,
        x_origin: 0,
        y_origin: 0,
        image_width: 0,
        image_height: 0,
        pixel_depth: 0,
        image_desc: 0,
    }
}

/// Alpha bits, other bits and image type code of each layout that can be
/// written; `None` for the others.
pub open spec fn layout_fields(c: ColorType) -> Option<(u8, u8, u8)> {
    match c {
        ColorType::Rgba8 | ColorType::Bgra8 => Some((8u8, 24u8, RAW_TRUE_COLOR)),
        ColorType::Rgb8 | ColorType::Bgr8 => Some((0u8, 24u8, RAW_TRUE_COLOR)),
        ColorType::La8 => Some((8u8, 8u8, RAW_GRAY_SCALE)),
        ColorType::L8 => Some((0u8, 8u8, RAW_GRAY_SCALE)),
        _ => None,
    }
}

/// The layouts that can be written.
pub open spec fn is_supported(c: ColorType) -> bool {
    layout_fields(c) is Some
}

/// The header of a `width` by `height` image of layout `c`, or why there is
/// none. An image with no pixels gets the zero header whatever its layout;
/// otherwise the width is checked, then the height, then the layout.
pub open spec fn header_for(c: ColorType, width: u32, height: u32) -> Result<Header, ImageError> {
    if width == 0 || height == 0 {
        Ok(zero_header())
    } else if width > 0xffff {
        Err(ImageError::Encoding(EncoderError::WidthInvalid(width)))
    } else if height > 0xffff {
        Err(ImageError::Encoding(EncoderError::HeightInvalid(height)))
    } else {
        match layout_fields(c) {
            None => Err(ImageError::Unsupported(c)),
            Some((alpha, other, image_type)) => Ok(
                Header {
                    image_type,
                    image_width: width as u16,
                    image_height: height as u16,
                    pixel_depth: (alpha + other) as u8,
                    image_desc: (alpha & ALPHA_BIT_MASK) | SCREEN_ORIGIN_BIT_MASK,
                    ..zero_header()
                },
            ),
        }
    }
}

/// The two bytes of `n`, least significant first.
pub open spec fn le_u16(n: u16) -> Seq<u8> {
    seq![(n % 256) as u8, (n / 256) as u8]
}

/// The header as it stands in the file: each field in order, the 16-bit
/// ones little-endian, with no padding.
pub open spec fn header_bytes(h: Header) -> Seq<u8> {
    seq![h.id_length, h.map_type, h.image_type] + le_u16(h.map_origin) + le_u16(h.map_length)
        + seq![h.map_entry_size] + le_u16(h.x_origin) + le_u16(h.y_origin) + le_u16(
        h.image_width,
    ) + le_u16(h.image_height) + seq![h.pixel_depth, h.image_desc]
}

/// Relies on byteorder's `WriteBytesExt::write_u16::<LittleEndian>`, which
/// hands the two little-endian bytes of `n` to `write_all`; on a `Vec<u8>`
/// that appends them and cannot fail.
#[verifier::external_body]
fn push_u16_le(out: &mut Vec<u8>, n: u16)
    ensures
        final(out)@ == old(out)@ + le_u16(n),
{
    let _ = out.write_u16::<LittleEndian>(n);
}

impl Header {
    /// The header with every field zero.
    pub fn empty() -> (r: Header)
        ensures
            r == zero_header(),
    {
        Header {
            id_length: 0,
            map_type: 0,
            image_type: 0,
            map_origin: 0,
            map_length: 0,
            map_entry_size: 0,
            x_origin: 0,
            y_origin: 0,
            image_width: 0,
            image_height: 0,
            pixel_depth: 0,
            image_desc: 0,
        }
    }

    /// The header of a `width` by `height` image of layout `color_type`.
    pub fn from_pixel_info(color_type: ColorType, width: u32, height: u32) -> (r: Result<
        Header,
        ImageError,
    >)
        ensures
            r == header_for(color_type, width, height),
    {
        let mut header = Header::empty();
        if width > 0 && height > 0 {
            if width > 0xffff {
                return Err(ImageError::Encoding(EncoderError::WidthInvalid(width)));
            }
            header.image_width = width as u16;
            if height > 0xffff {
                return Err(ImageError::Encoding(EncoderError::HeightInvalid(height)));
            }
            header.image_height = height as u16;
            let (num_alpha_bits, other_channel_bits, image_type): (u8, u8, u8) = match color_type {
                ColorType::Rgba8 | ColorType::Bgra8 => (8, 24, RAW_TRUE_COLOR),
                ColorType::Rgb8 | ColorType::Bgr8 => (0, 24, RAW_TRUE_COLOR),
                ColorType::La8 => (8, 8, RAW_GRAY_SCALE),
                ColorType::L8 => (0, 8, RAW_GRAY_SCALE),
                _ => {
                    return Err(ImageError::Unsupported(color_type));
                },
            };
            header.image_type = image_type;
            header.pixel_depth = num_alpha_bits + other_channel_bits;
            header.image_desc = num_alpha_bits & ALPHA_BIT_MASK;
            header.image_desc = header.image_desc | SCREEN_ORIGIN_BIT_MASK;
        }
        Ok(header)
    }

    /// Appends the header, as it stands in the file, to `w`.
    pub fn write_to(&self, w: &mut Vec<u8>)
        ensures
            final(w)@ == old(w)@ + header_bytes(*self),
    {
        w.push(self.id_length);
        w.push(self.map_type);
        w.push(self.image_type);
        push_u16_le(w, self.map_origin);
        push_u16_le(w, self.map_length);
        w.push(self.map_entry_size);
        push_u16_le(w, self.x_origin);
        push_u16_le(w, self.y_origin);
        push_u16_le(w, self.image_width);
        push_u16_le(w, self.image_height);
        w.push(self.pixel_depth);
        w.push(self.image_desc);
    }
}

} // verus!
