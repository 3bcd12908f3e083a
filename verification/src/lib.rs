#![allow(nonstandard_style)]

//! Structs for various pixel formats.
//!
//! Format types expose public fields where possible, though formats with
//! bitpacked data must use accessor methods.
//!
//! Every function carries a contract that Verus proves. The two calls into
//! `bitfrob` in the module `bit_region` are the only code taken on trust.

mod bit_region;
pub mod four_channel;
pub mod one_channel;
pub mod packed;
pub mod three_channel;

pub use crate::four_channel::{r16g16b16a16_Unorm, r8g8b8a8_Srgb, r8g8b8a8_Unorm};
pub use crate::one_channel::{r16_Unorm, r8_Srgb, r8_Unorm};
pub use crate::packed::{GbaChannels, GbaColor};
pub use crate::three_channel::{r16g16b16_Unorm, r8g8b8_Srgb, r8g8b8_Unorm};
