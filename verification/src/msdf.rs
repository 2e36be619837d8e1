//! Signed-distance-field generation for glyph bitmaps.
//!
//! A coverage bitmap is smoothed with a 3x3 kernel, resampled to a
//! fixed 64x64 grid, and each output texel receives three channels
//! derived from the signed distance to the nearest coverage edge. All
//! arithmetic is Q16.16 fixed point.

use vstd::prelude::*;
use crate::fixed::{
    fx_add, fx_sub, fx_mul, fx_div, fx_divi, fx_abs, fx_max, fx_min, fx_from, fx_len,
};

verus! {

/// In every three-channel texel the first channel is at least the
/// third: the two carry a symmetric offset around the middle channel.
pub open spec fn channels_ordered(field: Seq<u8>) -> bool {
    forall|t: int| 0 <= t && 3 * t + 2 < field.len() ==> field[3 * t] >= #[trigger] field[3 * t + 2]
}

/// A byte of coverage as a Q16.16 alpha in [0, 65536].
fn byte_alpha(v: u8) -> (r: i64)
    ensures
        0 <= r <= 65536,
{
    let wide: u64 = (v as u64) * 65536;
    let q: u64 = wide / 255;
    proof {
        assert(q <= 65536) by (nonlinear_arith)
            requires q == wide / 255, wide <= 255 * 65536u64,
        {}
    }
    q as i64
}

/// The integer cell of a nonnegative Q16.16 coordinate, capped at the
/// last cell of a grid of the given extent.
fn cell_floor(coord: i64, extent: u32) -> (r: u32)
    requires
        0 <= coord,
        1 <= extent,
    ensures
        r < extent,
{
    let q: u64 = (coord as u64) / 65536;
    if q >= (extent as u64) - 1 {
        extent - 1
    } else {
        q as u32
    }
}

/// Bilinear sample of a smoothed grid at a Q16.16 position.
fn bilinear(grid: &Vec<i64>, width: u32, height: u32, cx: i64, cy: i64) -> (r: i64)
    requires
        1 <= width <= 4096,
        1 <= height <= 4096,
        grid@.len() == width * height,
        0 <= cx,
        0 <= cy,
{
    let x0: u32 = cell_floor(cx, width);
    let y0: u32 = cell_floor(cy, height);
    let x1: u32 = if x0 + 1 >= width {
        width - 1
    } else {
        x0 + 1
    };
    let y1: u32 = if y0 + 1 >= height {
        height - 1
    } else {
        y0 + 1
    };
    let frac_x: i64 = fx_sub(cx, fx_from(x0 as i64));
    let frac_y: i64 = fx_sub(cy, fx_from(y0 as i64));
    proof {
        assert(y0 * width + x0 < width * height && y0 * width + x0 < 0x2000000) by (nonlinear_arith)
            requires x0 < width <= 4096, y0 < height <= 4096,
        {}
        assert(y0 * width + x1 < width * height && y0 * width + x1 < 0x2000000) by (nonlinear_arith)
            requires x1 < width <= 4096, y0 < height <= 4096,
        {}
        assert(y1 * width + x0 < width * height && y1 * width + x0 < 0x2000000) by (nonlinear_arith)
            requires x0 < width <= 4096, y1 < height <= 4096,
        {}
        assert(y1 * width + x1 < width * height && y1 * width + x1 < 0x2000000) by (nonlinear_arith)
            requires x1 < width <= 4096, y1 < height <= 4096,
        {}
    }
    let v00: i64 = grid[(y0 as usize) * (width as usize) + (x0 as usize)];
    let v10: i64 = grid[(y0 as usize) * (width as usize) + (x1 as usize)];
    let v01: i64 = grid[(y1 as usize) * (width as usize) + (x0 as usize)];
    let v11: i64 = grid[(y1 as usize) * (width as usize) + (x1 as usize)];
    let v0: i64 = fx_add(fx_mul(v00, fx_sub(65536, frac_x)), fx_mul(v10, frac_x));
    let v1: i64 = fx_add(fx_mul(v01, fx_sub(65536, frac_x)), fx_mul(v11, frac_x));
    fx_add(fx_mul(v0, fx_sub(65536, frac_y)), fx_mul(v1, frac_y))
}

/// Generate a 64x64 three-channel signed-distance field from a glyph
/// coverage bitmap: the bitmap is smoothed, resampled, and each texel
/// encodes the clamped distance to the nearest coverage edge, with a
/// small offset separating the first and third channel.
pub fn generate_msdf(bitmap: &Vec<u8>, width: u32, height: u32) -> (r: Vec<u8>)
    requires
        2 <= width <= 4096,
        2 <= height <= 4096,
        bitmap@.len() == width * height,
    ensures
        r@.len() == 12288,
        channels_ordered(r@),
{
    let msdf_width: u32 = 64;
    let msdf_height: u32 = 64;
    let mut msdf: Vec<u8> = Vec::new();

    let scale_x: i64 = fx_divi(fx_from(width as i64), 64);
    let scale_y: i64 = fx_divi(fx_from(height as i64), 64);
    let range: i64 = 393216;

    let mut smoothed: Vec<i64> = Vec::new();
    let mut sy: u32 = 0;
    while sy < height
        invariant
            sy <= height,
            2 <= width <= 4096,
            2 <= height <= 4096,
            bitmap@.len() == width * height,
            smoothed@.len() == sy * width,
        decreases height - sy,
    {
        let mut sx: u32 = 0;
        while sx < width
            invariant
                sx <= width,
                sy < height,
                2 <= width <= 4096,
                2 <= height <= 4096,
                bitmap@.len() == width * height,
                smoothed@.len() == sy * width + sx,
            decreases width - sx,
        {
            let mut sum: i64 = 0;
            let mut dy: i64 = -1;
            while dy <= 1
                invariant
                    -1 <= dy <= 2,
                    sx < width,
                    sy < height,
                    2 <= width <= 4096,
                    2 <= height <= 4096,
                    bitmap@.len() == width * height,
                    0 <= sum <= (dy + 1) * 3 * 4 * 65536,
                decreases 2 - dy,
            {
                let mut dx: i64 = -1;
                while dx <= 1
                    invariant
                        -1 <= dx <= 2,
                        -1 <= dy <= 1,
                        sx < width,
                        sy < height,
                        2 <= width <= 4096,
                        2 <= height <= 4096,
                        bitmap@.len() == width * height,
                        0 <= sum <= ((dy + 1) * 3 + (dx + 1)) * 4 * 65536,
                    decreases 2 - dx,
                {
                    let mut nx: i64 = (sx as i64) + dx;
                    if nx < 0 {
                        nx = 0;
                    }
                    if nx > (width as i64) - 1 {
                        nx = (width as i64) - 1;
                    }
                    let mut ny: i64 = (sy as i64) + dy;
                    if ny < 0 {
                        ny = 0;
                    }
                    if ny > (height as i64) - 1 {
                        ny = (height as i64) - 1;
                    }
                    let weight: i64 = if dx == 0 && dy == 0 {
                        4
                    } else if (if dx >= 0 { dx } else { -dx }) + (if dy >= 0 { dy } else { -dy })
                        == 1 {
                        2
                    } else {
                        1
                    };
                    proof {
                        assert(ny * width + nx < width * height && ny * width + nx < 0x2000000)
                            by (nonlinear_arith)
                            requires 0 <= nx < width <= 4096, 0 <= ny < height <= 4096,
                        {}
                    }
                    let a: i64 = byte_alpha(bitmap[(ny as usize) * (width as usize) + (nx as usize)]);
                    sum = sum + weight * a;
                    dx = dx + 1;
                }
                dy = dy + 1;
            }
            let avg: u64 = (sum as u64) / 16;
            smoothed.push(avg as i64);
            sx = sx + 1;
            proof {
                assert(sy * width + (sx - 1) + 1 == sy * width + sx);
            }
        }
        sy = sy + 1;
        proof {
            assert((sy - 1) * width + width == sy * width) by (nonlinear_arith) {}
        }
    }
    proof {
        assert(height * width == width * height) by (nonlinear_arith) {}
    }

    let ms: i64 = fx_max(scale_x, scale_y);
    let prod: i64 = fx_mul(range, ms);
    let prod_pos: i64 = if prod < 0 {
        0
    } else {
        prod
    };
    let radius_cells: u64 = (prod_pos as u64) / 65536;
    proof {
        assert(prod <= 140737488355328);
        assert(radius_cells <= 140737488355328) by (nonlinear_arith)
            requires
                radius_cells == (prod_pos as u64) / 65536,
                prod_pos as u64 <= 140737488355328u64,
        {}
    }
    let search_radius: i64 = (radius_cells as i64) + 2;

    let mut y: u32 = 0;
    while y < msdf_height
        invariant
            y <= 64,
            msdf_width == 64,
            msdf_height == 64,
            2 <= width <= 4096,
            2 <= height <= 4096,
            smoothed@.len() == width * height,
            2 <= search_radius <= 0x1000000000000,
            msdf@.len() == 192 * y,
            channels_ordered(msdf@),
        decreases 64 - y,
    {
        let mut x: u32 = 0;
        while x < msdf_width
            invariant
                x <= 64,
                y < 64,
                msdf_width == 64,
                2 <= width <= 4096,
                2 <= height <= 4096,
                smoothed@.len() == width * height,
                2 <= search_radius <= 0x1000000000000,
                msdf@.len() == 192 * y + 3 * x,
                channels_ordered(msdf@),
            decreases 64 - x,
        {
            let src_x: i64 = {
                let raw: i64 = fx_mul(fx_from(x as i64), scale_x);
                fx_min(fx_max(raw, 0), fx_from((width as i64) - 1))
            };
            let src_y: i64 = {
                let raw: i64 = fx_mul(fx_from(y as i64), scale_y);
                fx_min(fx_max(raw, 0), fx_from((height as i64) - 1))
            };

            let center_alpha: i64 = bilinear(&smoothed, width, height, src_x, src_y);
            let is_inside: bool = center_alpha > 32768;

            let mut min_dist: i64 = range;
            let mut dy: i64 = -search_radius;
            while dy <= search_radius
                invariant
                    -search_radius <= dy <= search_radius + 1,
                    2 <= search_radius <= 0x1000000000000,
                    2 <= width <= 4096,
                    2 <= height <= 4096,
                    smoothed@.len() == width * height,
                decreases search_radius - dy + 1,
            {
                let mut dx: i64 = -search_radius;
                while dx <= search_radius
                    invariant
                        -search_radius <= dx <= search_radius + 1,
                        -search_radius <= dy <= search_radius,
                        2 <= search_radius <= 0x1000000000000,
                        2 <= width <= 4096,
                        2 <= height <= 4096,
                        smoothed@.len() == width * height,
                    decreases search_radius - dx + 1,
                {
                    let check_x: i64 = fx_add(src_x, fx_div(fx_from(dx), scale_x));
                    let check_y: i64 = fx_add(src_y, fx_div(fx_from(dy), scale_y));
                    let in_bounds: bool = !(check_x < 0 || check_x >= fx_sub(
                        fx_from(width as i64),
                        65536,
                    ) || check_y < 0 || check_y >= fx_sub(fx_from(height as i64), 65536));
                    if in_bounds {
                        let check_alpha: i64 = bilinear(&smoothed, width, height, check_x, check_y);
                        let check_inside: bool = check_alpha > 32768;
                        if is_inside != check_inside {
                            let dist: i64 = fx_len(
                                fx_div(fx_from(dx), scale_x),
                                fx_div(fx_from(dy), scale_y),
                            );
                            min_dist = fx_min(min_dist, dist);
                        }
                    }
                    dx = dx + 1;
                }
                dy = dy + 1;
            }

            let signed_dist: i64 = if is_inside {
                min_dist
            } else {
                fx_sub(0, min_dist)
            };
            let normalized: i64 = fx_mul(fx_add(fx_div(signed_dist, range), 65536), 32768);
            let base_value: i64 = fx_min(fx_max(normalized, 0), 65536);
            let spread: i64 = fx_mul(1966, fx_sub(65536, fx_abs(base_value)));
            let rv: i64 = fx_min(fx_max(fx_add(base_value, spread), 0), 65536);
            let gv: i64 = base_value;
            let bv: i64 = fx_min(fx_max(fx_sub(base_value, spread), 0), 65536);

            let rb: u64 = ((rv as u64) * 255) / 65536;
            let gb: u64 = ((gv as u64) * 255) / 65536;
            let bb: u64 = ((bv as u64) * 255) / 65536;
            proof {
                assert(rb <= 255 && gb <= 255 && bb <= 255) by (nonlinear_arith)
                    requires
                        rb == ((rv as u64) * 255) / 65536,
                        gb == ((gv as u64) * 255) / 65536,
                        bb == ((bv as u64) * 255) / 65536,
                        rv as u64 <= 65536,
                        gv as u64 <= 65536,
                        bv as u64 <= 65536,
                {}
            }
            proof {
                assert(spread >= 0) by (nonlinear_arith)
                    requires
                        spread as int == crate::fixed::fxmul(1966, crate::fixed::fxsub(
                            65536,
                            crate::fixed::fxabs(base_value as int),
                        )),
                        0 <= base_value <= 65536,
                {}
                assert(rv >= bv);
                assert(rb >= bb) by (nonlinear_arith)
                    requires
                        rb == ((rv as u64) * 255) / 65536,
                        bb == ((bv as u64) * 255) / 65536,
                        rv >= bv >= 0,
                {}
            }
            let ghost oldf = msdf@;
            msdf.push(rb as u8);
            msdf.push(gb as u8);
            msdf.push(bb as u8);
            proof {
                let newf = msdf@;
                assert(oldf.len() == 3 * (64 * y + x));
                assert forall|t: int| 0 <= t && 3 * t + 2 < newf.len() implies newf[3 * t]
                    >= #[trigger] newf[3 * t + 2] by {
                    if 3 * t + 2 < oldf.len() {
                        assert(oldf[3 * t] >= oldf[3 * t + 2]);
                    } else {
                        assert(3 * t == oldf.len());
                    }
                }
            }
            x = x + 1;
        }
        y = y + 1;
    }
    msdf
}

} // verus!
