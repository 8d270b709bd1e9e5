use vstd::prelude::*;

verus! {

/// Page geometry in thousandths.
///
/// The document engine reports a page's native width and height as
/// fractional page units (points), and the caller picks a fractional
/// scale factor. Both are carried through this layer in thousandths —
/// `10100` is a native extent of `10.1` units, `2000` is a scale of
/// `2.0` — so the surface dimensions below are exact integer
/// arithmetic: one target pixel extent is
/// `floor(native * scale) = (native_milli * scale_milli) / 1_000_000`,
/// truncated, never rounded. A value too large for the rasterizer's
/// signed 32-bit extent is pinned to that maximum, mirroring how a
/// saturating float-to-int conversion would behave.
pub open spec fn spec_scaled_pixels(native_milli: int, scale_milli: int) -> int {
    let px = (native_milli * scale_milli) / 1000000;
    if px > i32::MAX as int {
        i32::MAX as int
    } else {
        px
    }
}

/// One pixel extent of the target surface: the native extent times the
/// scale, truncated to a whole pixel (both inputs in thousandths).
/// Callers must tolerate the sub-pixel loss from truncation: doubling
/// the scale does not necessarily double the result.
pub fn scaled_pixels(native_milli: u64, scale_milli: u64) -> (r: i32)
    ensures
        r == spec_scaled_pixels(native_milli as int, scale_milli as int),
        0 <= r <= i32::MAX,
{
    proof {
        assert((native_milli as int) * (scale_milli as int) <= 0xFFFF_FFFF_FFFF_FFFF
            * 0xFFFF_FFFF_FFFF_FFFF) by (nonlinear_arith)
            requires
                0 <= native_milli as int <= 0xFFFF_FFFF_FFFF_FFFF,
                0 <= scale_milli as int <= 0xFFFF_FFFF_FFFF_FFFF,
        ;
        assert((native_milli as int) * (scale_milli as int) >= 0) by (nonlinear_arith)
            requires
                0 <= native_milli as int,
                0 <= scale_milli as int,
        ;
    }
    let product: u128 = (native_milli as u128) * (scale_milli as u128);
    let px: u128 = product / 1000000;
    if px > (i32::MAX as u128) {
        i32::MAX
    } else {
        px as i32
    }
}

} // verus!
