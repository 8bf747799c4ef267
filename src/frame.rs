use vstd::prelude::*;
use crate::encoder::{rgb_len, RgbFrame};

verus! {

/// A plane of `height` rows, each `stride` bytes apart, holds the `row_len`
/// bytes of every row.
pub open spec fn rows_fit(plane_len: nat, stride: nat, row_len: nat, height: nat) -> bool {
    row_len <= stride && (height == 0 || (height - 1) * stride + row_len <= plane_len)
}

/// The rows `[0, height)` of `out` are the rows of `plane`, without the padding
/// after each row.
pub open spec fn packs_rows(out: Seq<u8>, plane: Seq<u8>, stride: nat, row_len: nat, height: nat) -> bool {
    forall|y: int, x: int|
        0 <= y < height && 0 <= x < row_len ==> #[trigger] out[y * row_len + x] == plane[y * stride + x]
}

proof fn row_offsets(y: int, x: int, row_len: int, stride: int, height: int)
    requires
        0 <= y < height,
        0 <= x < row_len,
        row_len <= stride,
    ensures
        y * row_len + x < height * row_len,
        y * stride + x < (height - 1) * stride + row_len,
        y * row_len + x >= 0,
        y * stride + x >= 0,
{
    assert(y * row_len + x < height * row_len) by (nonlinear_arith)
        requires 0 <= y < height, 0 <= x < row_len;
    assert(y * stride + x < (height - 1) * stride + row_len) by (nonlinear_arith)
        requires 0 <= y < height, 0 <= x < row_len, row_len <= stride;
    assert(y * row_len >= 0 && y * stride >= 0) by (nonlinear_arith)
        requires 0 <= y, 0 <= row_len, 0 <= stride;
}

/// Builds a frame from a decoded 8-bit RGB plane whose rows are `stride` bytes
/// apart: the frame holds exactly width x height x 3 bytes, row after row.
/// Nothing when the plane cannot hold the rows.
pub fn pack_rgb_rows(plane: &[u8], stride: usize, width: u32, height: u32) -> (r: Option<RgbFrame>)
    ensures
        r is Some <==> rows_fit(plane@.len(), stride as nat, width as nat * 3, height as nat),
        r matches Some(f) ==> {
            &&& f.width == width
            &&& f.height == height
            &&& f.data@.len() == rgb_len(width as nat, height as nat)
            &&& packs_rows(f.data@, plane@, stride as nat, width as nat * 3, height as nat)
        },
{
    let plane_len: usize = plane.len();
    let row_len: usize = match (width as usize).checked_mul(3) {
        Some(v) => v,
        None => return None,
    };
    if row_len > stride {
        return None;
    }
    if height > 0 {
        let last_start = match ((height - 1) as usize).checked_mul(stride) {
            Some(v) => v,
            None => return None,
        };
        match last_start.checked_add(row_len) {
            Some(end) => if end > plane_len {
                return None;
            },
            None => return None,
        }
    }
    let mut data: Vec<u8> = Vec::new();
    let mut y: u32 = 0;
    while y < height
        invariant
            plane_len == plane@.len(),
            row_len == width as nat * 3,
            row_len <= stride,
            height > 0 ==> (height - 1) as nat * stride as nat + row_len <= plane_len,
            y <= height,
            data@.len() == y as nat * row_len as nat,
            packs_rows(data@, plane@, stride as nat, row_len as nat, y as nat),
        decreases height - y,
    {
        proof {
            assert(y as nat * stride as nat <= (height - 1) as nat * stride as nat) by (nonlinear_arith)
                requires y < height;
        }
        let start: usize = y as usize * stride;
        let mut x: usize = 0;
        while x < row_len
            invariant
                plane_len == plane@.len(),
                row_len == width as nat * 3,
                row_len <= stride,
                y < height,
                start == y as nat * stride as nat,
                start + row_len <= plane_len,
                x <= row_len,
                data@.len() == y as nat * row_len as nat + x,
                packs_rows(data@, plane@, stride as nat, row_len as nat, y as nat),
                forall|k: int| 0 <= k < x ==> #[trigger] data@[y * row_len + k] == plane@[start + k],
            decreases row_len - x,
        {
            let ghost before = data@;
            data.push(plane[start + x]);
            proof {
                assert forall|yy: int, xx: int| 0 <= yy < y && 0 <= xx < row_len implies #[trigger] data@[yy
                    * row_len + xx] == plane@[yy * stride + xx] by {
                    row_offsets(yy, xx, row_len as int, stride as int, y as int);
                    assert(before[yy * row_len + xx] == plane@[yy * stride + xx]);
                }
                assert forall|k: int| 0 <= k < x + 1 implies #[trigger] data@[y * row_len + k] == plane@[start + k] by {
                    if k < x {
                        assert(before[y * row_len + k] == plane@[start + k]);
                    }
                }
            }
            x = x + 1;
        }
        proof {
            assert((y as nat + 1) * row_len as nat == y as nat * row_len as nat + row_len as nat) by (nonlinear_arith);
            assert forall|yy: int, xx: int| 0 <= yy < y as int + 1 && 0 <= xx < row_len implies #[trigger] data@[yy
                * row_len + xx] == plane@[yy * stride + xx] by {
                if yy == y as int {
                    assert(data@[y * row_len + xx] == plane@[start + xx]);
                }
            }
        }
        y = y + 1;
    }
    proof {
        assert(height as nat * row_len as nat == rgb_len(width as nat, height as nat)) by (nonlinear_arith)
            requires row_len == width as nat * 3;
    }
    Some(RgbFrame { width, height, data })
}

} // verus!
