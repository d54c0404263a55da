//! Pixel preprocessor: RGBA frames to single-channel luminance.
//!
//! A raw frame buffer is read as sequential 4-byte groups (red, green, blue,
//! alpha) and converted to one luminance byte per pixel, in pixel order. A
//! fully transparent pixel counts as white. Trailing bytes that do not form
//! a complete group are discarded, so short buffers are handled best-effort
//! with no error.

use vstd::prelude::*;

verus! {

/// Luminance of one pixel. A fully transparent pixel is white (255);
/// otherwise the fixed-point approximation
/// `(306 * red + 601 * green + 117 * blue + 512) / 1024`, whose weights sum
/// to 1024 so the quotient always fits a byte.
pub open spec fn spec_luma(red: u8, green: u8, blue: u8, alpha: u8) -> u8 {
    if alpha == 0 {
        255u8
    } else {
        ((306 * (red as int) + 601 * (green as int) + 117 * (blue as int) + 512) / 1024) as u8
    }
}

/// The luminance buffer for a raw RGBA buffer: one byte per complete 4-byte
/// group, in the same pixel order.
pub open spec fn spec_luma_buffer(data: Seq<u8>) -> Seq<u8> {
    Seq::new(
        data.len() / 4,
        |i: int| spec_luma(data[4 * i], data[4 * i + 1], data[4 * i + 2], data[4 * i + 3]),
    )
}

/// Convert a frame's image data into luma 8.
///
/// The input is raw RGBA bytes, as read back from the capture surface; the
/// output holds one luminance byte per complete 4-byte group, so its length
/// is the input length divided by four, rounding down.
pub fn convert_js_image_to_luma(data: &[u8]) -> (luma: Vec<u8>)
    ensures
        luma@ == spec_luma_buffer(data@),
        luma@.len() == data@.len() / 4,
{
    let len: usize = data.len();
    let n: usize = len / 4;
    proof {
        assert(4 * (n as int) <= len);
    }
    let mut luma: Vec<u8> = Vec::with_capacity(n);
    let mut i: usize = 0;
    while i < n
        invariant
            len == data@.len(),
            n == data@.len() / 4,
            4 * (n as int) <= len,
            i <= n,
            luma@.len() == i,
            forall|j: int|
                0 <= j < i ==> luma@[j] == spec_luma(
                    data@[4 * j],
                    data@[4 * j + 1],
                    data@[4 * j + 2],
                    data@[4 * j + 3],
                ),
        decreases n - i,
    {
        proof {
            assert(4 * (i as int) + 3 < data@.len());
        }
        let red = data[4 * i];
        let green = data[4 * i + 1];
        let blue = data[4 * i + 2];
        let alpha = data[4 * i + 3];
        let pixel: u8 = if alpha == 0 {
            255
        } else {
            let weighted: u32 = 306 * (red as u32) + 601 * (green as u32) + 117 * (blue as u32)
                + 512;
            proof {
                assert(weighted / 1024 <= 255);
            }
            (weighted / 1024) as u8
        };
        luma.push(pixel);
        i = i + 1;
    }
    proof {
        assert(luma@ =~= spec_luma_buffer(data@));
    }
    luma
}

} // verus!
