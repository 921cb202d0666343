use vstd::prelude::*;

verus! {

/// The pixel layouts that a caller can hand to the encoder. Only the 8-bit
/// grayscale and 8-bit color layouts can be written; the others are refused.
#[derive(Clone, Copy, Debug, PartialEq, Eq, Structural, Hash)]
pub enum ColorType {
    /// One 8-bit luminance channel.
    L8,
    /// 8-bit luminance and 8-bit alpha.
    La8,
    /// 8-bit red, green, blue.
    Rgb8,
    /// 8-bit red, green, blue, alpha.
    Rgba8,
    /// One 16-bit luminance channel.
    L16,
    /// 16-bit luminance and 16-bit alpha.
    La16,
    /// 16-bit red, green, blue.
    Rgb16,
    /// 16-bit red, green, blue, alpha.
    Rgba16,
    /// 8-bit blue, green, red.
    Bgr8,
    /// 8-bit blue, green, red, alpha.
    Bgra8,
}

/// Bytes that one pixel of the layout occupies.
pub open spec fn spec_bytes_per_pixel(c: ColorType) -> nat {
    match c {
        ColorType::L8 => 1,
        ColorType::La8 => 2,
        ColorType::Rgb8 => 3,
        ColorType::Rgba8 => 4,
        ColorType::L16 => 2,
        ColorType::La16 => 4,
        ColorType::Rgb16 => 6,
        ColorType::Rgba16 => 8,
        ColorType::Bgr8 => 3,
        ColorType::Bgra8 => 4,
    }
}

/// The layouts whose first and third channel trade places on the way to the
/// file, which stores color pixels blue first.
pub open spec fn swaps_channels(c: ColorType) -> bool {
    c == ColorType::Rgb8 || c == ColorType::Rgba8
}

impl ColorType {
    /// Bytes that one pixel of this layout occupies.
    pub fn bytes_per_pixel(&self) -> (r: u8)
        ensures
            r as nat == spec_bytes_per_pixel(*self),
    {
        match self {
            ColorType::L8 => 1,
            ColorType::La8 => 2,
            ColorType::Rgb8 => 3,
            ColorType::Rgba8 => 4,
            ColorType::L16 => 2,
            ColorType::La16 => 4,
            ColorType::Rgb16 => 6,
            ColorType::Rgba16 => 8,
            ColorType::Bgr8 => 3,
            ColorType::Bgra8 => 4,
        }
    }
}

} // verus!
