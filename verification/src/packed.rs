//! The packed 15-bit colour: three 5-bit channels in one 16-bit word.

use vstd::prelude::*;
use crate::bit_region::{get_value, with_value, region_value, region_replaced};

verus! {

/// What a packed colour word holds: three channels of five bits each, red in
/// the lowest bits, and one reserved bit on top that no channel uses.
pub struct GbaChannels {
    pub red: nat,
    pub green: nat,
    pub blue: nat,
    pub reserved: bool,
}

/// The channels held by a 16-bit word.
pub open spec fn unpack(word: u16) -> GbaChannels {
    GbaChannels {
        red: (word % 32) as nat,
        green: ((word / 32) % 32) as nat,
        blue: ((word / 1024) % 32) as nat,
        reserved: word >= 32768,
    }
}

/// The number whose 16-bit form holds the given channels.
pub open spec fn pack(channels: GbaChannels) -> nat {
    channels.red + 32 * channels.green + 1024 * channels.blue + if channels.reserved {
        32768nat
    } else {
        0nat
    }
}

/// Reading a channel out of its bit range is a division and a remainder.
proof fn lemma_channel_regions(word: u16)
    by (bit_vector)
    ensures
        region_value(0, 4, word) == word % 32,
        region_value(5, 9, word) == (word / 32) % 32,
        region_value(10, 14, word) == (word / 1024) % 32,
{
}

/// Overwriting the red range changes the red channel and nothing else.
proof fn lemma_replace_red(word: u16, value: u16)
    by (bit_vector)
    ensures
        region_replaced(0, 4, word, value) % 32 == value % 32,
        (region_replaced(0, 4, word, value) / 32) % 32 == (word / 32) % 32,
        (region_replaced(0, 4, word, value) / 1024) % 32 == (word / 1024) % 32,
        (region_replaced(0, 4, word, value) >= 32768) == (word >= 32768),
{
}

/// Overwriting the green range changes the green channel and nothing else.
proof fn lemma_replace_green(word: u16, value: u16)
    by (bit_vector)
    ensures
        region_replaced(5, 9, word, value) % 32 == word % 32,
        (region_replaced(5, 9, word, value) / 32) % 32 == value % 32,
        (region_replaced(5, 9, word, value) / 1024) % 32 == (word / 1024) % 32,
        (region_replaced(5, 9, word, value) >= 32768) == (word >= 32768),
{
}

/// Overwriting the blue range changes the blue channel and nothing else.
proof fn lemma_replace_blue(word: u16, value: u16)
    by (bit_vector)
    ensures
        region_replaced(10, 14, word, value) % 32 == word % 32,
        (region_replaced(10, 14, word, value) / 32) % 32 == (word / 32) % 32,
        (region_replaced(10, 14, word, value) / 1024) % 32 == value % 32,
        (region_replaced(10, 14, word, value) >= 32768) == (word >= 32768),
{
}

/// Every channel of a word is below 32, and the channels together with the
/// reserved bit give the word back: no two words hold the same channels.
pub proof fn lemma_pack_unpack(word: u16)
    ensures
        unpack(word).red < 32,
        unpack(word).green < 32,
        unpack(word).blue < 32,
        pack(unpack(word)) == word,
{
    assert(word % 32 + 32 * ((word / 32) % 32) + 1024 * ((word / 1024) % 32) + (if word
        >= 32768 {
        32768int
    } else {
        0int
    }) == word) by (bit_vector);
}

/// RGB 5-bit per channel (bitpacked) colour data.
///
/// Bits are filled low to high. The highest bit is ignored:
/// * `0bI_BBBBB_GGGGG_RRRRR`
///
/// This is the native color format of the GBA.
#[derive(Clone, Copy, PartialEq, PartialOrd, Structural)]
pub struct GbaColor(u16);

impl View for GbaColor {
    type V = GbaChannels;

    closed spec fn view(&self) -> GbaChannels {
        unpack(self.0)
    }
}

impl Default for GbaColor {
    /// The colour with every channel at zero.
    fn default() -> (color: Self)
        ensures
            color@ == (GbaChannels { red: 0, green: 0, blue: 0, reserved: false }),
    {
        Self(0)
    }
}

impl GbaColor {
    /// Every channel at zero.
    #[inline]
    #[must_use]
    pub fn BLACK() -> (color: Self)
        ensures
            color@ == (GbaChannels { red: 0, green: 0, blue: 0, reserved: false }),
    {
        Self(0b0_00000_00000_00000)
    }

    /// Red at its maximum, green and blue at zero.
    #[inline]
    #[must_use]
    pub fn RED() -> (color: Self)
        ensures
            color@ == (GbaChannels { red: 31, green: 0, blue: 0, reserved: false }),
    {
        Self(0b0_00000_00000_11111)
    }

    /// Green at its maximum, red and blue at zero.
    #[inline]
    #[must_use]
    pub fn GREEN() -> (color: Self)
        ensures
            color@ == (GbaChannels { red: 0, green: 31, blue: 0, reserved: false }),
    {
        Self(0b0_00000_11111_00000)
    }

    /// Red and green at their maximum, blue at zero.
    #[inline]
    #[must_use]
    pub fn YELLOW() -> (color: Self)
        ensures
            color@ == (GbaChannels { red: 31, green: 31, blue: 0, reserved: false }),
    {
        Self(0b0_00000_11111_11111)
    }

    /// Blue at its maximum, red and green at zero.
    #[inline]
    #[must_use]
    pub fn BLUE() -> (color: Self)
        ensures
            color@ == (GbaChannels { red: 0, green: 0, blue: 31, reserved: false }),
    {
        Self(0b0_11111_00000_00000)
    }

    /// Red and blue at their maximum, green at zero.
    #[inline]
    #[must_use]
    pub fn MAGENTA() -> (color: Self)
        ensures
            color@ == (GbaChannels { red: 31, green: 0, blue: 31, reserved: false }),
    {
        Self(0b0_11111_00000_11111)
    }

    /// Green and blue at their maximum, red at zero.
    #[inline]
    #[must_use]
    pub fn CYAN() -> (color: Self)
        ensures
            color@ == (GbaChannels { red: 0, green: 31, blue: 31, reserved: false }),
    {
        Self(0b0_11111_11111_00000)
    }

    /// Every channel at its maximum.
    #[inline]
    #[must_use]
    pub fn WHITE() -> (color: Self)
        ensures
            color@ == (GbaChannels { red: 31, green: 31, blue: 31, reserved: false }),
    {
        Self(0b0_11111_11111_11111)
    }

    /// The colour with every channel at zero.
    #[inline]
    #[must_use]
    pub fn new() -> (color: Self)
        ensures
            color@ == (GbaChannels { red: 0, green: 0, blue: 0, reserved: false }),
    {
        Self(0)
    }

    /// The colour that a raw 16-bit word holds. Every word is a colour.
    #[inline]
    #[must_use]
    pub fn from_bits(word: u16) -> (color: Self)
        ensures
            color@ == unpack(word),
    {
        Self(word)
    }

    /// The raw 16-bit word of this colour, reserved bit included.
    #[inline]
    #[must_use]
    pub fn to_bits(self) -> (word: u16)
        ensures
            word == pack(self@),
            unpack(word) == self@,
    {
        proof {
            lemma_pack_unpack(self.0);
        }
        self.0
    }

    /// The red channel.
    #[inline]
    #[must_use]
    pub fn red(self) -> (r: u16)
        ensures
            r == self@.red,
            r < 32,
    {
        proof {
            lemma_channel_regions(self.0);
        }
        get_value(0, 4, self.0)
    }

    /// The green channel.
    #[inline]
    #[must_use]
    pub fn green(self) -> (g: u16)
        ensures
            g == self@.green,
            g < 32,
    {
        proof {
            lemma_channel_regions(self.0);
        }
        get_value(5, 9, self.0)
    }

    /// The blue channel.
    #[inline]
    #[must_use]
    pub fn blue(self) -> (b: u16)
        ensures
            b == self@.blue,
            b < 32,
    {
        proof {
            lemma_channel_regions(self.0);
        }
        get_value(10, 14, self.0)
    }

    /// The same colour with its red channel replaced by the low five bits of
    /// `r`. Green, blue and the reserved bit stay as they are.
    #[inline]
    #[must_use]
    pub fn with_red(self, r: u16) -> (color: Self)
        ensures
            color@.red == r % 32,
            color@.green == self@.green,
            color@.blue == self@.blue,
            color@.reserved == self@.reserved,
    {
        proof {
            lemma_replace_red(self.0, r);
        }
        Self(with_value(0, 4, self.0, r))
    }

    /// The same colour with its green channel replaced by the low five bits
    /// of `g`. Red, blue and the reserved bit stay as they are.
    #[inline]
    #[must_use]
    pub fn with_green(self, g: u16) -> (color: Self)
        ensures
            color@.red == self@.red,
            color@.green == g % 32,
            color@.blue == self@.blue,
            color@.reserved == self@.reserved,
    {
        proof {
            lemma_replace_green(self.0, g);
        }
        Self(with_value(5, 9, self.0, g))
    }

    /// The same colour with its blue channel replaced by the low five bits of
    /// `b`. Red, green and the reserved bit stay as they are.
    #[inline]
    #[must_use]
    pub fn with_blue(self, b: u16) -> (color: Self)
        ensures
            color@.red == self@.red,
            color@.green == self@.green,
            color@.blue == b % 32,
            color@.reserved == self@.reserved,
    {
        proof {
            lemma_replace_blue(self.0, b);
        }
        Self(with_value(10, 14, self.0, b))
    }

    /// Every channel of a colour is below 32.
    pub proof fn lemma_channels_in_range(self)
        ensures
            self@.red < 32,
            self@.green < 32,
            self@.blue < 32,
    {
    }

    /// Two colours that hold the same channels and the same reserved bit are the
    /// same colour.
    pub proof fn lemma_view_injective(self, other: Self)
        requires
            self@ == other@,
        ensures
            self == other,
    {
        lemma_pack_unpack(self.0);
        lemma_pack_unpack(other.0);
    }
}

} // verus!
