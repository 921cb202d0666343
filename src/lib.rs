//! An encoder for uncompressed true-color and grayscale images in the
//! format with an 18-byte little-endian header.

pub mod color;
pub mod encoder;
pub mod error;
pub mod header;

pub use color::ColorType;
pub use encoder::TgaEncoder;
pub use error::{EncoderError, ImageError};
pub use header::Header;
