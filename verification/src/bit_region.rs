//! Inclusive bit ranges of a 16-bit word: what they hold and how they are
//! replaced.

use vstd::prelude::*;

verus! {

/// The word whose bits `low ..= high` are ones and whose other bits are zeros.
pub open spec fn region_mask(low: u32, high: u32) -> u16 {
    (0xffffu16 >> ((15 - (high - low)) as u32)) << low
}

/// The bits `low ..= high` of `word`, moved down so that bit `low` becomes bit 0.
pub open spec fn region_value(low: u32, high: u32, word: u16) -> u16 {
    (word >> low) & region_mask(0, (high - low) as u32)
}

/// `word` with its bits `low ..= high` replaced by the low bits of `value`;
/// bits of `value` that do not fit in the range are dropped.
pub open spec fn region_replaced(low: u32, high: u32, word: u16, value: u16) -> u16 {
    (word & !region_mask(low, high)) | ((value << low) & region_mask(low, high))
}

/// Calls `bitfrob::u16_get_value`. Trusted: for a range inside the word the
/// call returns the range's bits shifted down to bit 0. For any other range
/// the call panics, so such a range is not admitted.
#[verifier::external_body]
pub(crate) fn get_value(low: u32, high: u32, word: u16) -> (value: u16)
    requires
        low <= high,
        high < 16,
    ensures
        value == region_value(low, high, word),
{
    bitfrob::u16_get_value(low, high, word)
}

/// Calls `bitfrob::u16_with_value`. Trusted: for a range inside the word the
/// call returns `word` with the range overwritten by `value` shifted up to
/// bit `low`, what does not fit being cut off. For any other range the call
/// panics, so such a range is not admitted.
#[verifier::external_body]
pub(crate) fn with_value(low: u32, high: u32, word: u16, value: u16) -> (replaced: u16)
    requires
        low <= high,
        high < 16,
    ensures
        replaced == region_replaced(low, high, word, value),
{
    bitfrob::u16_with_value(low, high, word, value)
}

} // verus!
