use vstd::prelude::*;
use crate::color::ColorType;

verus! {

/// A dimension that the 16-bit fields of the header cannot hold.
#[derive(Clone, Copy, Debug, PartialEq, Eq, Structural, Hash)]
pub enum EncoderError {
    /// The width, which is over 65535.
    WidthInvalid(u32),
    /// The height, which is over 65535.
    HeightInvalid(u32),
}

/// Why an image could not be encoded.
#[derive(Clone, Copy, Debug, PartialEq, Eq, Structural, Hash)]
pub enum ImageError {
    /// A dimension does not fit the header.
    Encoding(EncoderError),
    /// The pixel layout has no raw true-color or grayscale form.
    Unsupported(ColorType),
}

} // verus!
