//! Formats with red, green and blue channels.

use vstd::prelude::*;
use crate::four_channel::{r16g16b16a16_Unorm, r8g8b8a8_Srgb, r8g8b8a8_Unorm};

verus! {

/// sRGB encoded RGB data, `u8` per channel.
#[derive(Debug, Clone, Copy, PartialEq, Eq, PartialOrd, Ord, Hash, Structural)]
pub struct r8g8b8_Srgb {
    pub r: u8,
    pub g: u8,
    pub b: u8,
}

impl Default for r8g8b8_Srgb {
    /// Every channel at zero.
    fn default() -> (pixel: Self)
        ensures
            pixel == (Self { r: 0, g: 0, b: 0 }),
    {
        Self { r: 0, g: 0, b: 0 }
    }
}

impl r8g8b8_Srgb {
    /// Black: every channel at zero.
    #[inline]
    #[must_use]
    pub fn BLACK() -> (color: Self)
        ensures
            color == (Self { r: 0, g: 0, b: 0 }),
    {
        Self { r: 0, g: 0, b: 0 }
    }

    /// White: every channel at its maximum.
    #[inline]
    #[must_use]
    pub fn WHITE() -> (color: Self)
        ensures
            color == (Self { r: 255, g: 255, b: 255 }),
    {
        Self { r: u8::MAX, g: u8::MAX, b: u8::MAX }
    }
}

impl From<r8g8b8a8_Srgb> for r8g8b8_Srgb {
    /// Drops the alpha channel.
    #[inline]
    fn from(rgba: r8g8b8a8_Srgb) -> (rgb: Self) {
        Self { r: rgba.r, g: rgba.g, b: rgba.b }
    }
}

impl vstd::std_specs::convert::FromSpecImpl<r8g8b8a8_Srgb> for r8g8b8_Srgb {
    open spec fn obeys_from_spec() -> bool {
        true
    }

    open spec fn from_spec(rgba: r8g8b8a8_Srgb) -> Self {
        Self { r: rgba.r, g: rgba.g, b: rgba.b }
    }
}

/// Linear RGB data, `u8` per channel.
///
/// Note that 8 bits is too little precision to encode linear colors well, so
/// this format is *inherently* a not-great option for doing color work.
#[derive(Debug, Clone, Copy, PartialEq, Eq, PartialOrd, Ord, Hash, Structural)]
pub struct r8g8b8_Unorm {
    pub r: u8,
    pub g: u8,
    pub b: u8,
}

impl Default for r8g8b8_Unorm {
    /// Every channel at zero.
    fn default() -> (pixel: Self)
        ensures
            pixel == (Self { r: 0, g: 0, b: 0 }),
    {
        Self { r: 0, g: 0, b: 0 }
    }
}

impl r8g8b8_Unorm {
    /// Black: every channel at zero.
    #[inline]
    #[must_use]
    pub fn BLACK() -> (color: Self)
        ensures
            color == (Self { r: 0, g: 0, b: 0 }),
    {
        Self { r: 0, g: 0, b: 0 }
    }

    /// White: every channel at its maximum.
    #[inline]
    #[must_use]
    pub fn WHITE() -> (color: Self)
        ensures
            color == (Self { r: 255, g: 255, b: 255 }),
    {
        Self { r: u8::MAX, g: u8::MAX, b: u8::MAX }
    }
}

impl From<r8g8b8a8_Unorm> for r8g8b8_Unorm {
    /// Drops the alpha channel.
    #[inline]
    fn from(rgba: r8g8b8a8_Unorm) -> (rgb: Self) {
        Self { r: rgba.r, g: rgba.g, b: rgba.b }
    }
}

impl vstd::std_specs::convert::FromSpecImpl<r8g8b8a8_Unorm> for r8g8b8_Unorm {
    open spec fn obeys_from_spec() -> bool {
        true
    }

    open spec fn from_spec(rgba: r8g8b8a8_Unorm) -> Self {
        Self { r: rgba.r, g: rgba.g, b: rgba.b }
    }
}

/// Linear RGB data, `u16` per channel.
#[derive(Debug, Clone, Copy, PartialEq, Eq, PartialOrd, Ord, Hash, Structural)]
pub struct r16g16b16_Unorm {
    pub r: u16,
    pub g: u16,
    pub b: u16,
}

impl Default for r16g16b16_Unorm {
    /// Every channel at zero.
    fn default() -> (pixel: Self)
        ensures
            pixel == (Self { r: 0, g: 0, b: 0 }),
    {
        Self { r: 0, g: 0, b: 0 }
    }
}

impl r16g16b16_Unorm {
    /// Black: every channel at zero.
    #[inline]
    #[must_use]
    pub fn BLACK() -> (color: Self)
        ensures
            color == (Self { r: 0, g: 0, b: 0 }),
    {
        Self { r: 0, g: 0, b: 0 }
    }

    /// White: every channel at its maximum.
    #[inline]
    #[must_use]
    pub fn WHITE() -> (color: Self)
        ensures
            color == (Self { r: 65535, g: 65535, b: 65535 }),
    {
        Self { r: u16::MAX, g: u16::MAX, b: u16::MAX }
    }
}

impl From<r16g16b16a16_Unorm> for r16g16b16_Unorm {
    /// Drops the alpha channel.
    #[inline]
    fn from(rgba: r16g16b16a16_Unorm) -> (rgb: Self) {
        Self { r: rgba.r, g: rgba.g, b: rgba.b }
    }
}

impl vstd::std_specs::convert::FromSpecImpl<r16g16b16a16_Unorm> for r16g16b16_Unorm {
    open spec fn obeys_from_spec() -> bool {
        true
    }

    open spec fn from_spec(rgba: r16g16b16a16_Unorm) -> Self {
        Self { r: rgba.r, g: rgba.g, b: rgba.b }
    }
}

} // verus!
