//! Coordinate transforms between the displayed rectangle, the source image and
//! the network's fixed input space.
//!
//! Every position is an integer or an exact fraction of integers, so nothing is
//! lost on the way to the network; only the step back to whole pixels truncates.

use vstd::prelude::*;

verus! {

/// Side length, in pixels, of the square input that the network takes.
pub const NETWORK_SIDE: u32 = 1024;

/// A position on one axis of the network's input: `num / den` pixels.
#[derive(Clone, Copy, Debug, PartialEq, Eq, Structural)]
pub struct Scaled {
    pub num: u64,
    pub den: u32,
}

impl Scaled {
    /// A fraction needs a denominator.
    pub open spec fn well_formed(self) -> bool {
        self.den > 0
    }

    /// The whole network pixel that the position lies in.
    pub fn whole(self) -> (r: Scaled)
        requires
            self.well_formed(),
        ensures
            r == whole_of(self),
            r.well_formed(),
    {
        Scaled { num: self.num / (self.den as u64), den: 1 }
    }
}

/// A position cut down to the whole pixel below it.
pub open spec fn whole_of(position: Scaled) -> Scaled {
    Scaled { num: (position.num as int / position.den as int) as u64, den: 1 }
}

/// `v`, held to the range of `u32`.
pub open spec fn saturated(v: int) -> u32 {
    if v >= u32::MAX as int {
        u32::MAX
    } else if v <= 0 {
        0u32
    } else {
        v as u32
    }
}

/// The length of an axis of the source image; an unknown length (zero) counts as one pixel.
pub open spec fn resolved(original: u32) -> int {
    if original == 0 {
        1
    } else {
        original as int
    }
}

/// Where a source pixel lies in network space: scaled by `NETWORK_SIDE / original`,
/// and left as it is when the original length is unknown.
pub open spec fn network_of(pixel: u32, original: u32) -> Scaled {
    if original == 0 {
        Scaled { num: pixel as u64, den: 1 }
    } else {
        Scaled { num: (pixel as int * NETWORK_SIDE as int) as u64, den: original }
    }
}

/// The source pixel under a network position: scaled by `original / NETWORK_SIDE`
/// and truncated, or only truncated when the original length is unknown.
pub open spec fn source_of(position: Scaled, original: u32) -> int {
    if original == 0 {
        position.num as int / position.den as int
    } else {
        (position.num as int * original as int) / (NETWORK_SIDE as int * position.den as int)
    }
}

/// The source pixel under a point of the displayed rectangle, `offset` units from
/// its edge on an axis `extent` units long. Without an extent there is no
/// fraction to take: the edge itself maps to pixel 0, anything else to the far end.
pub open spec fn source_of_display(offset: u32, extent: u32, original: u32) -> int {
    if extent == 0 {
        if offset == 0 {
            0
        } else {
            u32::MAX as int
        }
    } else {
        (offset as int * resolved(original)) / extent as int
    }
}

/// How far from the rectangle's edge a source pixel is drawn.
pub open spec fn display_of_source(pixel: u32, extent: u32, original: u32) -> int {
    (pixel as int * extent as int) / resolved(original)
}

/// Maps a source pixel to network space.
pub fn to_network(pixel: u32, original: u32) -> (r: Scaled)
    ensures
        r == network_of(pixel, original),
        r.well_formed(),
{
    if original == 0 {
        Scaled { num: pixel as u64, den: 1 }
    } else {
        let wide: u64 = pixel as u64;
        let side: u64 = NETWORK_SIDE as u64;
        assert(wide * side <= u64::MAX) by (nonlinear_arith)
            requires
                wide <= u32::MAX,
                side == 1024,
        ;
        Scaled { num: wide * side, den: original }
    }
}

/// Maps a network position back to a whole source pixel.
pub fn from_network(position: Scaled, original: u32) -> (r: u32)
    requires
        position.well_formed(),
    ensures
        r == saturated(source_of(position, original)),
{
    let num: u128 = position.num as u128;
    let den: u128 = position.den as u128;
    let q: u128 = if original == 0 {
        num / den
    } else {
        let by: u128 = original as u128;
        let side: u128 = NETWORK_SIDE as u128;
        assert(num * by <= u128::MAX && side * den <= u128::MAX && side * den > 0)
            by (nonlinear_arith)
            requires
                num <= u64::MAX,
                by <= u32::MAX,
                side == 1024,
                0 < den <= u32::MAX,
        ;
        (num * by) / (side * den)
    };
    if q >= u32::MAX as u128 {
        u32::MAX
    } else {
        q as u32
    }
}

/// Maps a point of the displayed rectangle to a whole source pixel.
pub fn display_to_source(offset: u32, extent: u32, original: u32) -> (r: u32)
    ensures
        r == saturated(source_of_display(offset, extent, original)),
{
    if extent == 0 {
        if offset == 0 {
            0
        } else {
            u32::MAX
        }
    } else {
        let length: u64 = if original == 0 {
            1
        } else {
            original as u64
        };
        let at: u64 = offset as u64;
        assert(at * length <= u64::MAX) by (nonlinear_arith)
            requires
                at <= u32::MAX,
                length <= u32::MAX,
        ;
        let q: u64 = (at * length) / (extent as u64);
        if q >= u32::MAX as u64 {
            u32::MAX
        } else {
            q as u32
        }
    }
}

/// Maps a source pixel to its distance from the edge of the displayed rectangle.
pub fn source_to_display(pixel: u32, extent: u32, original: u32) -> (r: u32)
    ensures
        r == saturated(display_of_source(pixel, extent, original)),
{
    let length: u64 = if original == 0 {
        1
    } else {
        original as u64
    };
    let at: u64 = pixel as u64;
    let span: u64 = extent as u64;
    assert(at * span <= u64::MAX) by (nonlinear_arith)
        requires
            at <= u32::MAX,
            span <= u32::MAX,
    ;
    let q: u64 = (at * span) / length;
    if q >= u32::MAX as u64 {
        u32::MAX
    } else {
        q as u32
    }
}

/// A source pixel taken to network space and back is the same pixel, whatever
/// the length of the axis and also when it is unknown: the fraction in between
/// is exact, and the truncation at the end has nothing to cut off. In
/// particular the pixel that comes back lies within one pixel of the first.
pub proof fn law_network_round_trip(pixel: u32, original: u32)
    ensures
        source_of(network_of(pixel, original), original) == pixel,
        saturated(source_of(network_of(pixel, original), original)) == pixel,
        -1 <= saturated(source_of(network_of(pixel, original), original)) - pixel <= 1,
{
    let p: int = pixel as int;
    let w: int = original as int;
    if original == 0 {
    } else {
        assert(0 <= p * 1024 <= u64::MAX) by (nonlinear_arith)
            requires
                0 <= p <= u32::MAX,
        ;
        assert((p * 1024 * w) / (1024 * w) == p) by (nonlinear_arith)
            requires
                w > 0,
        ;
    }
}

/// Where the position in network space is cut down to a whole pixel before
/// it is taken back, the source pixel that comes back is the first one or
/// the one before it, as long as the axis is no longer than the network's
/// side. On a longer axis one network pixel covers several source pixels,
/// and more can be lost.
pub proof fn law_whole_pixel_round_trip(pixel: u32, original: u32)
    requires
        original <= NETWORK_SIDE,
    ensures
        pixel - 1 <= source_of(whole_of(network_of(pixel, original)), original) <= pixel,
{
    let x: int = pixel as int;
    let w: int = original as int;
    if original == 0 {
        assert(x / 1 == x);
    } else {
        let a: int = x * 1024;
        assert(0 <= a <= u64::MAX) by (nonlinear_arith)
            requires
                a == x * 1024,
                0 <= x <= u32::MAX,
        ;
        let n: int = a / w;
        assert(0 <= n && n * w <= a && a < n * w + w) by (nonlinear_arith)
            requires
                n == a / w,
                w > 0,
                a >= 0,
        ;
        assert(n <= a) by (nonlinear_arith)
            requires
                n * w <= a,
                w >= 1,
                n >= 0,
        ;
    }
}

} // verus!
