//! Formats with red, green, blue and alpha channels.

use vstd::prelude::*;
use vstd::std_specs::convert::FromSpec;
use crate::three_channel::{r16g16b16_Unorm, r8g8b8_Srgb, r8g8b8_Unorm};

verus! {

/// sRGB encoded RGB data + linear alpha, `u8` per channel.
#[derive(Debug, Clone, Copy, PartialEq, Eq, PartialOrd, Ord, Hash, Structural)]
pub struct r8g8b8a8_Srgb {
    pub r: u8,
    pub g: u8,
    pub b: u8,
    pub a: u8,
}

impl Default for r8g8b8a8_Srgb {
    /// Every channel at zero, alpha included.
    fn default() -> (pixel: Self)
        ensures
            pixel == (Self { r: 0, g: 0, b: 0, a: 0 }),
    {
        Self { r: 0, g: 0, b: 0, a: 0 }
    }
}

impl r8g8b8a8_Srgb {
    /// Black, fully opaque.
    #[inline]
    #[must_use]
    pub fn OPAQUE_BLACK() -> (color: Self)
        ensures
            color == (Self { r: 0, g: 0, b: 0, a: 255 }),
    {
        Self { r: 0, g: 0, b: 0, a: u8::MAX }
    }

    /// White, fully opaque.
    #[inline]
    #[must_use]
    pub fn OPAQUE_WHITE() -> (color: Self)
        ensures
            color == (Self { r: 255, g: 255, b: 255, a: 255 }),
    {
        Self { r: u8::MAX, g: u8::MAX, b: u8::MAX, a: u8::MAX }
    }

    /// Black, fully transparent.
    #[inline]
    #[must_use]
    pub fn TRANSPARENT_BLACK() -> (color: Self)
        ensures
            color == (Self { r: 0, g: 0, b: 0, a: 0 }),
    {
        Self { r: 0, g: 0, b: 0, a: 0 }
    }
}

impl From<r8g8b8_Srgb> for r8g8b8a8_Srgb {
    /// Adds an alpha channel value of "fully opaque" (`u8::MAX`).
    #[inline]
    fn from(rgb: r8g8b8_Srgb) -> (rgba: Self) {
        Self { r: rgb.r, g: rgb.g, b: rgb.b, a: u8::MAX }
    }
}

impl vstd::std_specs::convert::FromSpecImpl<r8g8b8_Srgb> for r8g8b8a8_Srgb {
    open spec fn obeys_from_spec() -> bool {
        true
    }

    open spec fn from_spec(rgb: r8g8b8_Srgb) -> Self {
        Self { r: rgb.r, g: rgb.g, b: rgb.b, a: u8::MAX }
    }
}

/// Linear RGBA data, `u8` per channel.
///
/// Note that 8 bits is too little precision to encode linear colors well, so
/// this format is *inherently* a not-great option for doing color work.
#[derive(Debug, Clone, Copy, PartialEq, Eq, PartialOrd, Ord, Hash, Structural)]
pub struct r8g8b8a8_Unorm {
    pub r: u8,
    pub g: u8,
    pub b: u8,
    pub a: u8,
}

impl Default for r8g8b8a8_Unorm {
    /// Every channel at zero, alpha included.
    fn default() -> (pixel: Self)
        ensures
            pixel == (Self { r: 0, g: 0, b: 0, a: 0 }),
    {
        Self { r: 0, g: 0, b: 0, a: 0 }
    }
}

impl r8g8b8a8_Unorm {
    /// Black, fully opaque.
    #[inline]
    #[must_use]
    pub fn OPAQUE_BLACK() -> (color: Self)
        ensures
            color == (Self { r: 0, g: 0, b: 0, a: 255 }),
    {
        Self { r: 0, g: 0, b: 0, a: u8::MAX }
    }

    /// White, fully opaque.
    #[inline]
    #[must_use]
    pub fn OPAQUE_WHITE() -> (color: Self)
        ensures
            color == (Self { r: 255, g: 255, b: 255, a: 255 }),
    {
        Self { r: u8::MAX, g: u8::MAX, b: u8::MAX, a: u8::MAX }
    }

    /// Black, fully transparent.
    #[inline]
    #[must_use]
    pub fn TRANSPARENT_BLACK() -> (color: Self)
        ensures
            color == (Self { r: 0, g: 0, b: 0, a: 0 }),
    {
        Self { r: 0, g: 0, b: 0, a: 0 }
    }
}

impl From<r8g8b8_Unorm> for r8g8b8a8_Unorm {
    /// Adds an alpha channel value of "fully opaque" (`u8::MAX`).
    #[inline]
    fn from(rgb: r8g8b8_Unorm) -> (rgba: Self) {
        Self { r: rgb.r, g: rgb.g, b: rgb.b, a: u8::MAX }
    }
}

impl vstd::std_specs::convert::FromSpecImpl<r8g8b8_Unorm> for r8g8b8a8_Unorm {
    open spec fn obeys_from_spec() -> bool {
        true
    }

    open spec fn from_spec(rgb: r8g8b8_Unorm) -> Self {
        Self { r: rgb.r, g: rgb.g, b: rgb.b, a: u8::MAX }
    }
}

/// Linear RGBA data, `u16` per channel.
#[derive(Debug, Clone, Copy, PartialEq, Eq, PartialOrd, Ord, Hash, Structural)]
pub struct r16g16b16a16_Unorm {
    pub r: u16,
    pub g: u16,
    pub b: u16,
    pub a: u16,
}

impl Default for r16g16b16a16_Unorm {
    /// Every channel at zero, alpha included.
    fn default() -> (pixel: Self)
        ensures
            pixel == (Self { r: 0, g: 0, b: 0, a: 0 }),
    {
        Self { r: 0, g: 0, b: 0, a: 0 }
    }
}

impl r16g16b16a16_Unorm {
    /// Black, fully opaque.
    #[inline]
    #[must_use]
    pub fn OPAQUE_BLACK() -> (color: Self)
        ensures
            color == (Self { r: 0, g: 0, b: 0, a: 65535 }),
    {
        Self { r: 0, g: 0, b: 0, a: u16::MAX }
    }

    /// White, fully opaque.
    #[inline]
    #[must_use]
    pub fn OPAQUE_WHITE() -> (color: Self)
        ensures
            color == (Self { r: 65535, g: 65535, b: 65535, a: 65535 }),
    {
        Self { r: u16::MAX, g: u16::MAX, b: u16::MAX, a: u16::MAX }
    }

    /// Black, fully transparent.
    #[inline]
    #[must_use]
    pub fn TRANSPARENT_BLACK() -> (color: Self)
        ensures
            color == (Self { r: 0, g: 0, b: 0, a: 0 }),
    {
        Self { r: 0, g: 0, b: 0, a: 0 }
    }
}

impl From<r16g16b16_Unorm> for r16g16b16a16_Unorm {
    /// Adds an alpha channel value of "fully opaque" (`u16::MAX`).
    #[inline]
    fn from(rgb: r16g16b16_Unorm) -> (rgba: Self) {
        Self { r: rgb.r, g: rgb.g, b: rgb.b, a: u16::MAX }
    }
}

impl vstd::std_specs::convert::FromSpecImpl<r16g16b16_Unorm> for r16g16b16a16_Unorm {
    open spec fn obeys_from_spec() -> bool {
        true
    }

    open spec fn from_spec(rgb: r16g16b16_Unorm) -> Self {
        Self { r: rgb.r, g: rgb.g, b: rgb.b, a: u16::MAX }
    }
}

/// Giving an 8-bit sRGB pixel an alpha channel keeps red, green and blue and
/// makes it fully opaque; taking the alpha channel away keeps red, green and
/// blue; so adding alpha and dropping it again gives the pixel back.
pub proof fn lemma_alpha_srgb8(rgb: r8g8b8_Srgb, rgba: r8g8b8a8_Srgb)
    ensures
        r8g8b8a8_Srgb::from_spec(rgb) == (r8g8b8a8_Srgb { r: rgb.r, g: rgb.g, b: rgb.b, a: 255 }),
        r8g8b8_Srgb::from_spec(rgba) == (r8g8b8_Srgb { r: rgba.r, g: rgba.g, b: rgba.b }),
        r8g8b8_Srgb::from_spec(r8g8b8a8_Srgb::from_spec(rgb)) == rgb,
{
}

/// Giving an 8-bit linear pixel an alpha channel keeps red, green and blue
/// and makes it fully opaque; taking the alpha channel away keeps red, green
/// and blue; so adding alpha and dropping it again gives the pixel back.
pub proof fn lemma_alpha_unorm8(rgb: r8g8b8_Unorm, rgba: r8g8b8a8_Unorm)
    ensures
        r8g8b8a8_Unorm::from_spec(rgb) == (r8g8b8a8_Unorm {
            r: rgb.r,
            g: rgb.g,
            b: rgb.b,
            a: 255,
        }),
        r8g8b8_Unorm::from_spec(rgba) == (r8g8b8_Unorm { r: rgba.r, g: rgba.g, b: rgba.b }),
        r8g8b8_Unorm::from_spec(r8g8b8a8_Unorm::from_spec(rgb)) == rgb,
{
}

/// Giving a 16-bit linear pixel an alpha channel keeps red, green and blue
/// and makes it fully opaque; taking the alpha channel away keeps red, green
/// and blue; so adding alpha and dropping it again gives the pixel back.
pub proof fn lemma_alpha_unorm16(rgb: r16g16b16_Unorm, rgba: r16g16b16a16_Unorm)
    ensures
        r16g16b16a16_Unorm::from_spec(rgb) == (r16g16b16a16_Unorm {
            r: rgb.r,
            g: rgb.g,
            b: rgb.b,
            a: 65535,
        }),
        r16g16b16_Unorm::from_spec(rgba) == (r16g16b16_Unorm { r: rgba.r, g: rgba.g, b: rgba.b }),
        r16g16b16_Unorm::from_spec(r16g16b16a16_Unorm::from_spec(rgb)) == rgb,
{
}

} // verus!
