//! Frame dimensions as reported by a capture source.

use vstd::prelude::*;

verus! {

/// A width and height in pixels, fixed for the lifetime of a session.
#[derive(Clone, Copy, Debug, PartialEq, Eq, Structural)]
pub struct DeviceSize {
    pub width: u32,
    pub height: u32,
}

impl DeviceSize {
    /// Unpack a size delivered as one 64-bit word: width in the upper
    /// 32 bits, height in the lower 32 bits.
    pub fn from_packed(packed: u64) -> (r: DeviceSize)
        ensures
            r.width == packed >> 32,
            r.height == packed & 0xFFFF_FFFF,
    {
        let width: u32 = (packed >> 32) as u32;
        let height: u32 = (packed & 0xFFFF_FFFF) as u32;
        proof {
            assert(packed >> 32 <= 0xFFFF_FFFF) by (bit_vector);
            assert(packed & 0xFFFF_FFFF <= 0xFFFF_FFFF) by (bit_vector);
        }
        DeviceSize { width, height }
    }

    /// Size of the area spanned by desktop coordinates: width is
    /// right minus left, height is bottom minus top. A display's
    /// bounds never run backwards, so the differences are demanded to
    /// be non-negative; they then always fit in 32 bits.
    pub fn from_bounds(left: i32, top: i32, right: i32, bottom: i32) -> (r: DeviceSize)
        requires
            left <= right,
            top <= bottom,
        ensures
            r.width == right - left,
            r.height == bottom - top,
    {
        let width: u32 = ((right as i64) - (left as i64)) as u32;
        let height: u32 = ((bottom as i64) - (top as i64)) as u32;
        DeviceSize { width, height }
    }
}

} // verus!
