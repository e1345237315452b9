use vstd::prelude::*;

verus! {

/// Microseconds in one second.
pub const MICROS_PER_SECOND: u64 = 1_000_000;

/// A point of the play area, in thousandths of a world unit.
#[derive(Clone, Copy, Debug, PartialEq, Eq, Structural)]
pub struct Point {
    pub x: i64,
    pub y: i64,
}

/// `v` held to the range of `i64`.
pub open spec fn saturated(v: int) -> i64 {
    if v > i64::MAX {
        i64::MAX
    } else if v < i64::MIN {
        i64::MIN
    } else {
        v as i64
    }
}

/// `v` held to `[lo, hi]`.
pub open spec fn clamped(v: int, lo: int, hi: int) -> int {
    if v > hi {
        hi
    } else if v < lo {
        lo
    } else {
        v
    }
}

/// `a + d`, held to the range of `i64`.
pub fn shift(a: i64, d: i128) -> (r: i64)
    requires
        -0x1_0000_0000_0000_0000_0000_0000 <= d <= 0x1_0000_0000_0000_0000_0000_0000,
    ensures
        r == saturated(a + d),
{
    let v: i128 = a as i128 + d;
    if v > i64::MAX as i128 {
        i64::MAX
    } else if v < i64::MIN as i128 {
        i64::MIN
    } else {
        v as i64
    }
}

/// The distance covered in `dt` microseconds at `speed` thousandths per second,
/// rounded down.
pub open spec fn travel(speed: int, dt: int) -> int {
    speed * dt / (MICROS_PER_SECOND as int)
}

/// `travel(speed, dt)` computed.
pub fn distance(speed: u64, dt: u32) -> (r: u128)
    ensures
        r == travel(speed as int, dt as int),
        r <= 0x1_0000_0000_0000_0000_0000_0000,
{
    proof {
        assert(speed as int * dt as int <= 0xffff_ffff_ffff_ffff * 0xffff_ffff) by (nonlinear_arith)
            requires speed <= 0xffff_ffff_ffff_ffffu64, dt <= 0xffff_ffffu32;
        assert(speed as int * dt as int >= 0) by (nonlinear_arith);
    }
    let p: u128 = speed as u128 * dt as u128;
    let r: u128 = p / (MICROS_PER_SECOND as u128);
    proof {
        assert(r <= p);
    }
    r
}

/// Whether `r` is the integer square root of `n`.
pub open spec fn is_isqrt(n: int, r: int) -> bool {
    0 <= r && r * r <= n && n < (r + 1) * (r + 1)
}

/// The largest `r` with `r * r <= n`.
pub fn isqrt(n: u64) -> (r: u64)
    ensures
        is_isqrt(n as int, r as int),
{
    let mut lo: u128 = 0;
    let mut hi: u128 = n as u128 + 1;
    proof {
        assert((n as int + 1) * (n as int + 1) > n as int) by (nonlinear_arith);
    }
    while lo + 1 < hi
        invariant
            lo < hi <= n as int + 1,
            lo * lo <= n,
            n < hi * hi,
        decreases hi - lo,
    {
        let mid: u128 = lo + (hi - lo) / 2;
        proof {
            assert(mid * mid <= n as int * n as int) by (nonlinear_arith)
                requires mid <= n as int, mid >= 0;
            assert(n as int * n as int <= 0xffff_ffff_ffff_ffff * 0xffff_ffff_ffff_ffff) by (nonlinear_arith)
                requires 0 <= n as int <= 0xffff_ffff_ffff_ffff;
        }
        if mid * mid <= n as u128 {
            lo = mid;
        } else {
            hi = mid;
        }
    }
    lo as u64
}

/// Whether two axis-aligned boxes, centred at `a` and `b` with the given widths
/// and heights, overlap with positive area (touching edges do not count).
pub open spec fn boxes_overlap(a: Point, aw: int, ah: int, b: Point, bw: int, bh: int) -> bool {
    2 * (a.x - b.x) < aw + bw && 2 * (b.x - a.x) < aw + bw
    && 2 * (a.y - b.y) < ah + bh && 2 * (b.y - a.y) < ah + bh
}

/// Overlap test of two axis-aligned boxes (see `boxes_overlap`).
pub fn collide(a: Point, aw: u32, ah: u32, b: Point, bw: u32, bh: u32) -> (r: bool)
    ensures
        r == boxes_overlap(a, aw as int, ah as int, b, bw as int, bh as int),
{
    let dx: i128 = 2 * (a.x as i128 - b.x as i128);
    let dy: i128 = 2 * (a.y as i128 - b.y as i128);
    let sw: i128 = aw as i128 + bw as i128;
    let sh: i128 = ah as i128 + bh as i128;
    dx < sw && -dx < sw && dy < sh && -dy < sh
}

} // verus!
