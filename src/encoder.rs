use vstd::prelude::*;
use vstd::arithmetic::div_mod::{
    lemma_add_mod_noop,
    lemma_fundamental_div_mod,
    lemma_mod_add_multiples_vanish,
    lemma_small_mod,
};
use vstd::slice::slice_to_vec;
use crate::color::{ColorType, spec_bytes_per_pixel, swaps_channels};
use crate::error::{EncoderError, ImageError};
use crate::header::{Header, header_bytes, header_for, is_supported};

verus! {

/// Byte `j` of `buf` once the first and third byte of every `stride`-byte
/// pixel have traded places.
pub open spec fn reordered_byte(buf: Seq<u8>, stride: int, j: int) -> u8 {
    if j % stride == 0 {
        buf[j + 2]
    } else if j % stride == 2 {
        buf[j - 2]
    } else {
        buf[j]
    }
}

/// `buf` with the first and third byte of every `stride`-byte pixel swapped.
pub open spec fn reordered(buf: Seq<u8>, stride: int) -> Seq<u8> {
    Seq::new(buf.len(), |j: int| reordered_byte(buf, stride, j))
}

/// The pixel bytes as they stand in the file for layout `c`.
pub open spec fn pixel_bytes(buf: Seq<u8>, c: ColorType) -> Seq<u8> {
    if swaps_channels(c) {
        reordered(buf, spec_bytes_per_pixel(c) as int)
    } else {
        buf
    }
}

/// The whole file for a `width` by `height` image of layout `c` whose pixels
/// are `buf`, or why there is none.
pub open spec fn encoded(buf: Seq<u8>, width: u32, height: u32, c: ColorType) -> Result<
    Seq<u8>,
    ImageError,
> {
    match header_for(c, width, height) {
        Ok(h) => Ok(header_bytes(h) + pixel_bytes(buf, c)),
        Err(e) => Err(e),
    }
}

/// Within a pixel that starts at `i`, the byte at `i + k` sits at place `k`.
proof fn lemma_place_in_pixel(i: int, k: int, stride: int)
    requires
        stride > 0,
        i >= 0,
        i % stride == 0,
        0 <= k < stride,
    ensures
        (i + k) % stride == k,
{
    lemma_add_mod_noop(i, k, stride);
    lemma_small_mod(k as nat, stride as nat);
}

/// A pixel that starts before the end of a buffer made of whole pixels ends
/// within it.
proof fn lemma_pixel_fits(i: int, len: int, stride: int)
    requires
        stride > 0,
        0 <= i < len,
        i % stride == 0,
        len % stride == 0,
    ensures
        i + stride <= len,
{
    lemma_fundamental_div_mod(i, stride);
    lemma_fundamental_div_mod(len, stride);
    let a = i / stride;
    let b = len / stride;
    assert(a + 1 <= b) by (nonlinear_arith)
        requires
            i == stride * a,
            len == stride * b,
            i < len,
            stride > 0,
    ;
    assert(i + stride <= len) by (nonlinear_arith)
        requires
            i == stride * a,
            len == stride * b,
            a + 1 <= b,
            stride > 0,
    ;
}

/// Swaps the first and third byte of every `stride`-byte pixel of `image`.
pub fn swap_first_and_third(image: &mut Vec<u8>, stride: usize)
    requires
        stride >= 3,
        old(image)@.len() as int % (stride as int) == 0,
    ensures
        final(image)@ == reordered(old(image)@, stride as int),
{
    let ghost buf = image@;
    let len = image.len();
    let mut i: usize = 0;
    while i < len
        invariant
            len == buf.len(),
            image@.len() == len,
            stride >= 3,
            len % stride == 0,
            i <= len,
            i % stride == 0,
            forall|j: int| 0 <= j < i ==> image@[j] == reordered_byte(buf, stride as int, j),
            forall|j: int| i <= j < len ==> image@[j] == buf[j],
        decreases len - i,
    {
        proof {
            lemma_pixel_fits(i as int, len as int, stride as int);
        }
        let first = image[i];
        let third = image[i + 2];
        image.set(i, third);
        image.set(i + 2, first);
        proof {
            assert forall|j: int| i <= j < i + stride implies image@[j] == reordered_byte(
                buf,
                stride as int,
                j,
            ) by {
                lemma_place_in_pixel(i as int, j - i, stride as int);
            }
            lemma_mod_add_multiples_vanish(i as int, stride as int);
        }
        i = i + stride;
    }
    assert(image@ =~= reordered(buf, stride as int));
}

/// The pixel bytes of `buf` as they stand in the file for layout `color_type`,
/// in a new vector; `buf` itself is left as it is.
pub fn pixel_data(buf: &[u8], color_type: ColorType) -> (r: Vec<u8>)
    requires
        swaps_channels(color_type) ==> buf@.len() as int % (spec_bytes_per_pixel(color_type) as int) == 0,
    ensures
        r@ == pixel_bytes(buf@, color_type),
{
    let mut image = slice_to_vec(buf);
    match color_type {
        ColorType::Rgb8 | ColorType::Rgba8 => {
            swap_first_and_third(&mut image, color_type.bytes_per_pixel() as usize);
        },
        _ => {},
    }
    image
}

/// An image of a writable layout whose sides both lie in 1..=65535, and whose
/// buffer holds its pixels, encodes to 18 header bytes followed by
/// width * height * bytes-per-pixel pixel bytes.
pub proof fn lemma_encoded_length(buf: Seq<u8>, width: u32, height: u32, c: ColorType)
    requires
        is_supported(c),
        1 <= width <= 0xffff,
        1 <= height <= 0xffff,
        buf.len() == width * height * spec_bytes_per_pixel(c),
    ensures
        encoded(buf, width, height, c) is Ok,
        encoded(buf, width, height, c)->Ok_0.len() == 18 + width * height * spec_bytes_per_pixel(c),
{
}

/// A side over 65535 is refused with its own value, whatever the other
/// nonzero side is; where both are too large the width is named.
pub proof fn lemma_oversized_side(buf: Seq<u8>, width: u32, height: u32, c: ColorType)
    requires
        width > 0,
        height > 0,
        width > 0xffff || height > 0xffff,
    ensures
        encoded(buf, width, height, c) == if width > 0xffff {
            Err::<Seq<u8>, ImageError>(ImageError::Encoding(EncoderError::WidthInvalid(width)))
        } else {
            Err::<Seq<u8>, ImageError>(ImageError::Encoding(EncoderError::HeightInvalid(height)))
        },
{
}

/// An image with no rows or no columns encodes, whatever its layout, to an
/// all-zero header followed by the pixel bytes.
pub proof fn lemma_empty_image(buf: Seq<u8>, width: u32, height: u32, c: ColorType)
    requires
        width == 0 || height == 0,
    ensures
        encoded(buf, width, height, c) is Ok,
        encoded(buf, width, height, c)->Ok_0.subrange(0, 18) == Seq::new(18, |i: int| 0u8),
        encoded(buf, width, height, c)->Ok_0.subrange(18, 18 + buf.len() as int) == pixel_bytes(
            buf,
            c,
        ),
{
    let out = encoded(buf, width, height, c)->Ok_0;
    assert(out.subrange(0, 18) =~= Seq::new(18, |i: int| 0u8));
    assert(out.subrange(18, 18 + buf.len() as int) =~= pixel_bytes(buf, c));
}

/// In the file, the pixels of a red-first color layout have their first and
/// third byte swapped and every other byte kept; the pixels of every other
/// layout are the buffer itself.
pub proof fn lemma_channel_order(buf: Seq<u8>, width: u32, height: u32, c: ColorType)
    requires
        encoded(buf, width, height, c) is Ok,
        swaps_channels(c) ==> buf.len() as int % (spec_bytes_per_pixel(c) as int) == 0,
    ensures
        encoded(buf, width, height, c)->Ok_0.len() == 18 + buf.len(),
        ({
            let px = encoded(buf, width, height, c)->Ok_0.subrange(18, 18 + buf.len() as int);
            let s = spec_bytes_per_pixel(c) as int;
            &&& swaps_channels(c) ==> forall|j: int|
                0 <= j < buf.len() ==> #[trigger] px[j] == if j % s == 0 {
                    buf[j + 2]
                } else if j % s == 2 {
                    buf[j - 2]
                } else {
                    buf[j]
                }
            &&& !swaps_channels(c) ==> px == buf
        }),
{
}

/// A layout that cannot be written is refused by name whenever both sides
/// lie in 1..=65535.
pub proof fn lemma_unsupported_layout(buf: Seq<u8>, width: u32, height: u32, c: ColorType)
    requires
        !is_supported(c),
        1 <= width <= 0xffff,
        1 <= height <= 0xffff,
    ensures
        encoded(buf, width, height, c) == Err::<Seq<u8>, ImageError>(ImageError::Unsupported(c)),
{
}

/// Writes images to a byte vector, which it borrows.
pub struct TgaEncoder<'a> {
    pub writer: &'a mut Vec<u8>,
}

impl<'a> TgaEncoder<'a> {
    /// An encoder that appends its output to `w`.
    pub fn new(w: &'a mut Vec<u8>) -> (r: TgaEncoder<'a>)
        ensures
            *r.writer == *old(w),
            *final(w) == *final(r.writer),
    {
        TgaEncoder { writer: w }
    }

    /// Appends the file for the `width` by `height` image `buf` of layout
    /// `color_type`: the header, then the pixels row by row from the top,
    /// with the first and third channel swapped for red-first color layouts.
    /// Where the header cannot be made, nothing is written and the reason is
    /// returned.
    pub fn encode(self, buf: &[u8], width: u32, height: u32, color_type: ColorType) -> (r: Result<
        (),
        ImageError,
    >)
        requires
            swaps_channels(color_type) ==> buf@.len() as int % (spec_bytes_per_pixel(color_type) as int)
                == 0,
        ensures
            match encoded(buf@, width, height, color_type) {
                Ok(bytes) => r is Ok && final(self.writer)@ == old(self.writer)@ + bytes,
                Err(e) => r == Err::<(), ImageError>(e) && final(self.writer)@ == old(self.writer)@,
            },
    {
        let header = match Header::from_pixel_info(color_type, width, height) {
            Ok(h) => h,
            Err(e) => {
                return Err(e);
            },
        };
        header.write_to(self.writer);
        let mut image = pixel_data(buf, color_type);
        self.writer.append(&mut image);
        Ok(())
    }
}

} // verus!
