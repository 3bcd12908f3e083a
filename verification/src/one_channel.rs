//! Formats with a red channel only.

use vstd::prelude::*;

verus! {

/// sRGB encoded Red data, `u8`.
#[derive(Debug, Clone, Copy, PartialEq, Eq, PartialOrd, Ord, Hash, Structural)]
pub struct r8_Srgb {
    pub r: u8,
}

impl Default for r8_Srgb {
    /// The channel at zero.
    fn default() -> (pixel: Self)
        ensures
            pixel == (Self { r: 0 }),
    {
        Self { r: 0 }
    }
}

/// Linear Red data, `u8`.
///
/// Note that 8 bits is too little precision to encode linear colors well, so
/// this format is *inherently* a not-great option for doing color work.
#[derive(Debug, Clone, Copy, PartialEq, Eq, PartialOrd, Ord, Hash, Structural)]
pub struct r8_Unorm {
    pub r: u8,
}

impl Default for r8_Unorm {
    /// The channel at zero.
    fn default() -> (pixel: Self)
        ensures
            pixel == (Self { r: 0 }),
    {
        Self { r: 0 }
    }
}

/// Linear Red data, `u16`.
#[derive(Debug, Clone, Copy, PartialEq, Eq, PartialOrd, Ord, Hash, Structural)]
pub struct r16_Unorm {
    pub r: u16,
}

impl Default for r16_Unorm {
    /// The channel at zero.
    fn default() -> (pixel: Self)
        ensures
            pixel == (Self { r: 0 }),
    {
        Self { r: 0 }
    }
}

} // verus!
