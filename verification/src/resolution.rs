//! Bounded resolution for the offscreen capture surface.
//!
//! Frames are rendered at the video source's own resolution unless one side
//! exceeds the cap, in which case the longer side is scaled down to the cap
//! and the other proportionally, flooring the scaled value. Each final
//! dimension is then floored at a minimum so that degenerate buffers are
//! never produced.

use vstd::prelude::*;

verus! {

/// Longest side allowed for a capture surface, in pixels.
pub const MAX_DIMENSION: u32 = 800;

/// Smallest value either capture dimension may take, in pixels.
pub const MIN_DIMENSION: u32 = 50;

/// The dimensions after the cap rule alone: unchanged when both sides are
/// within the cap, otherwise the longer side becomes the cap and the other is
/// scaled by the source's aspect ratio, rounding down.
pub open spec fn spec_capped(w: int, h: int) -> (int, int) {
    if w <= MAX_DIMENSION && h <= MAX_DIMENSION {
        (w, h)
    } else if h > w {
        (MAX_DIMENSION * w / h, MAX_DIMENSION as int)
    } else {
        (MAX_DIMENSION as int, MAX_DIMENSION * h / w)
    }
}

/// The final capture resolution: the capped dimensions, each floored at the
/// minimum. The minimum applies whether or not the cap rule scaled anything.
pub open spec fn spec_resolution(w: int, h: int) -> (int, int) {
    let c = spec_capped(w, h);
    (
        if c.0 < MIN_DIMENSION { MIN_DIMENSION as int } else { c.0 },
        if c.1 < MIN_DIMENSION { MIN_DIMENSION as int } else { c.1 },
    )
}

/// Computes the bounded capture resolution for a raw video size, as
/// (width, height).
pub fn get_resolution(width: u32, height: u32) -> (r: (u32, u32))
    ensures
        (r.0 as int, r.1 as int) == spec_resolution(width as int, height as int),
{
    let mut w = width;
    let mut h = height;
    if w > MAX_DIMENSION || h > MAX_DIMENSION {
        if h > w {
            proof {
                assert(MAX_DIMENSION * (width as int) / (height as int) < MAX_DIMENSION)
                    by (nonlinear_arith)
                    requires
                        width < height,
                        height > MAX_DIMENSION,
                ;
            }
            w = ((MAX_DIMENSION as u64 * w as u64) / (h as u64)) as u32;
            h = MAX_DIMENSION;
        } else {
            proof {
                assert(MAX_DIMENSION * (height as int) / (width as int) <= MAX_DIMENSION)
                    by (nonlinear_arith)
                    requires
                        height <= width,
                        width > MAX_DIMENSION,
                ;
            }
            h = ((MAX_DIMENSION as u64 * h as u64) / (w as u64)) as u32;
            w = MAX_DIMENSION;
        }
    }
    if w < MIN_DIMENSION {
        w = MIN_DIMENSION;
    }
    if h < MIN_DIMENSION {
        h = MIN_DIMENSION;
    }
    (w, h)
}

/// Law: for every raw size, the bounded resolution keeps both dimensions
/// within the cap; a size already within the cap passes the cap rule
/// unchanged; a size beyond it is scaled so that the longer side becomes the
/// cap and the other is the floor of the proportional value; and both final
/// dimensions meet the minimum.
pub proof fn lemma_resolution_bounds(w: int, h: int)
    requires
        0 <= w,
        0 <= h,
    ensures
        ({
            let r = spec_resolution(w, h);
            &&& MIN_DIMENSION <= r.0 <= MAX_DIMENSION
            &&& MIN_DIMENSION <= r.1 <= MAX_DIMENSION
            &&& (w <= MAX_DIMENSION && h <= MAX_DIMENSION) ==> spec_capped(w, h) == (w, h)
            &&& (w > MAX_DIMENSION || h > MAX_DIMENSION) ==> (if h > w {
                r.1 == MAX_DIMENSION && r.0 == spec_resolution(w, h).0 && spec_capped(
                    w,
                    h,
                ).0 == MAX_DIMENSION * w / h
            } else {
                r.0 == MAX_DIMENSION && spec_capped(w, h).1 == MAX_DIMENSION * h / w
            })
        }),
{
    if w > MAX_DIMENSION || h > MAX_DIMENSION {
        if h > w {
            assert(MAX_DIMENSION * w / h < MAX_DIMENSION) by (nonlinear_arith)
                requires
                    w < h,
                    h > MAX_DIMENSION,
            ;
            assert(MAX_DIMENSION * w / h >= 0) by (nonlinear_arith)
                requires
                    0 <= w,
                    h > 0,
            ;
        } else {
            assert(MAX_DIMENSION * h / w <= MAX_DIMENSION) by (nonlinear_arith)
                requires
                    h <= w,
                    w > MAX_DIMENSION,
            ;
            assert(MAX_DIMENSION * h / w >= 0) by (nonlinear_arith)
                requires
                    0 <= h,
                    w > 0,
            ;
        }
    }
}

} // verus!
