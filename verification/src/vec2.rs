//! Fixed-point 2-D vectors and the integer square root and scaling
//! operations the simulation is built on.
//!
//! A coordinate is an `i64` count of milli-units.  `normalize_to(v, t)`
//! plays the role of `normalize(v) * t` over the reals: it scales `v` to a
//! vector of magnitude as close to `t` as the grid allows, rounding each
//! component toward zero.

use vstd::prelude::*;
use vstd::arithmetic::div_mod::{
    lemma_div_is_ordered, lemma_div_multiples_vanish, lemma_fundamental_div_mod, lemma_mod_bound,
};
use crate::constants::POS_LIMIT;

verus! {

/// A 2-D vector (or point) in milli-units.
#[derive(Clone, Copy, PartialEq, Eq, Structural, Debug)]
pub struct Vec2 {
    pub x: i64,
    pub y: i64,
}

impl Vec2 {
    /// Squared Euclidean magnitude.
    pub open spec fn norm_sq(self) -> int {
        self.x * self.x + self.y * self.y
    }

    /// Both components lie within `[-b, b]`.
    pub open spec fn in_range(self, b: int) -> bool {
        -b <= self.x <= b && -b <= self.y <= b
    }
}

/// `r` is the integer square root of `n`: the largest integer whose square
/// does not exceed `n`.
pub open spec fn is_isqrt(n: int, r: int) -> bool {
    0 <= r && r * r <= n && n < (r + 1) * (r + 1)
}

/// The integer square root of `n` (0 for negative `n`).
pub closed spec fn isqrt_spec(n: int) -> int
    decreases n,
{
    if n <= 0 {
        0
    } else {
        let r = isqrt_spec(n - 1);
        if (r + 1) * (r + 1) <= n {
            r + 1
        } else {
            r
        }
    }
}

/// `isqrt_spec` really is the integer square root.
pub proof fn lemma_isqrt(n: int)
    requires
        0 <= n,
    ensures
        is_isqrt(n, isqrt_spec(n)),
    decreases n,
{
    if n == 0 {
        assert(isqrt_spec(0) == 0);
    } else {
        lemma_isqrt(n - 1);
        let r = isqrt_spec(n - 1);
        if (r + 1) * (r + 1) <= n {
            assert(isqrt_spec(n) == r + 1);
            assert(n <= (r + 1) * (r + 1));
            assert((r + 1) * (r + 1) < (r + 2) * (r + 2)) by (nonlinear_arith)
                requires
                    0 <= r,
            ;
        } else {
            assert(isqrt_spec(n) == r);
        }
    }
}

/// The integer square root is unique.
pub proof fn lemma_isqrt_unique(n: int, a: int, b: int)
    requires
        is_isqrt(n, a),
        is_isqrt(n, b),
    ensures
        a == b,
{
    assert(a == b) by (nonlinear_arith)
        requires
            0 <= a && a * a <= n && n < (a + 1) * (a + 1),
            0 <= b && b * b <= n && n < (b + 1) * (b + 1),
    ;
}

/// On a perfect square the integer square root is exact.
pub proof fn lemma_isqrt_square(a: int)
    requires
        0 <= a,
    ensures
        isqrt_spec(a * a) == a,
{
    assert(0 <= a * a && is_isqrt(a * a, a)) by (nonlinear_arith)
        requires
            0 <= a,
    ;
    lemma_isqrt(a * a);
    lemma_isqrt_unique(a * a, isqrt_spec(a * a), a);
}

/// Integer square root, by bisection.
pub fn isqrt_u64(n: u64) -> (r: u64)
    requires
        n <= 9_000_000_000_000_000_000,
    ensures
        r == isqrt_spec(n as int),
        is_isqrt(n as int, r as int),
{
    proof {
        lemma_isqrt(n as int);
    }
    let mut lo: u64 = 0;
    let mut hi: u64 = 3_000_000_001;
    assert((3_000_000_001 as int) * (3_000_000_001 as int) == 9_000_000_006_000_000_001)
        by (nonlinear_arith);
    while lo + 1 < hi
        invariant
            lo < hi <= 3_000_000_001,
            n <= 9_000_000_000_000_000_000,
            (lo as int) * (lo as int) <= n as int,
            (n as int) < (hi as int) * (hi as int),
        decreases hi - lo,
    {
        let mid = lo + (hi - lo) / 2;
        assert(lo < mid < hi);
        assert((mid as int) * (mid as int) <= 9_000_000_006_000_000_001) by (nonlinear_arith)
            requires
                0 <= mid as int <= 3_000_000_001,
        ;
        if mid * mid <= n {
            lo = mid;
        } else {
            hi = mid;
        }
    }
    proof {
        assert(hi == lo + 1);
        assert(is_isqrt(n as int, lo as int));
        lemma_isqrt_unique(n as int, isqrt_spec(n as int), lo as int);
    }
    lo
}

/// One component of `normalize_to`: `c` scaled by `t / len`, rounded
/// toward zero.
pub open spec fn scale_coord(c: int, t: int, len: int) -> int {
    if c >= 0 {
        (c * t) / len
    } else {
        -(((-c) * t) / len)
    }
}

/// The x component of `v` scaled to magnitude `t`.
pub open spec fn normalized_x(v: Vec2, t: int) -> int {
    scale_coord(v.x as int, t, isqrt_spec(v.norm_sq()))
}

/// The y component of `v` scaled to magnitude `t`.
pub open spec fn normalized_y(v: Vec2, t: int) -> int {
    scale_coord(v.y as int, t, isqrt_spec(v.norm_sq()))
}

/// Scale the nonzero vector `v` to magnitude (as near as the grid allows)
/// `t`: the fixed-point counterpart of `normalize(v) * t`.
pub fn normalize_to(v: Vec2, t: i64) -> (r: Vec2)
    requires
        0 < t <= 1_000_000,
        v.in_range(2_000_000_000),
        v.norm_sq() > 0,
    ensures
        r.x == normalized_x(v, t as int),
        r.y == normalized_y(v, t as int),
        r.in_range(t as int),
{
    let ax: u64 = if v.x >= 0 {
        v.x as u64
    } else {
        (-v.x) as u64
    };
    let ay: u64 = if v.y >= 0 {
        v.y as u64
    } else {
        (-v.y) as u64
    };
    assert(ax as int * (ax as int) == v.x * v.x && ay as int * (ay as int) == v.y * v.y)
        by (nonlinear_arith)
        requires
            ax as int == v.x as int || ax as int == -(v.x as int),
            ay as int == v.y as int || ay as int == -(v.y as int),
    ;
    assert(ax * ax <= 4_000_000_000_000_000_000 && ay * ay <= 4_000_000_000_000_000_000)
        by (nonlinear_arith)
        requires
            ax <= 2_000_000_000,
            ay <= 2_000_000_000,
    ;
    let nsq: u64 = ax * ax + ay * ay;
    let len: u64 = isqrt_u64(nsq);
    proof {
        assert(nsq as int == v.norm_sq());
        if len == 0 {
            assert((nsq as int) < (0 + 1) * (0 + 1));
        }
    }
    assert(len >= 1);
    let tu: u64 = t as u64;
    assert(ax * tu <= 2_000_000_000_000_000 && ay * tu <= 2_000_000_000_000_000)
        by (nonlinear_arith)
        requires
            ax <= 2_000_000_000,
            ay <= 2_000_000_000,
            tu <= 1_000_000,
    ;
    let qx: u64 = ax * tu / len;
    let qy: u64 = ay * tu / len;
    proof {
        lemma_scale_le(ax as int, tu as int, nsq as int, len as int);
        lemma_scale_le(ay as int, tu as int, nsq as int, len as int);
    }
    let rx: i64 = if v.x >= 0 {
        qx as i64
    } else {
        -(qx as i64)
    };
    let ry: i64 = if v.y >= 0 {
        qy as i64
    } else {
        -(qy as i64)
    };
    Vec2 { x: rx, y: ry }
}

/// A scaled component never exceeds the target magnitude `t`.
proof fn lemma_scale_le(a: int, t: int, n: int, len: int)
    requires
        0 <= a,
        0 < t,
        a * a <= n,
        is_isqrt(n, len),
        0 < len,
    ensures
        0 <= (a * t) / len <= t,
{
    assert(a <= len) by (nonlinear_arith)
        requires
            0 <= a,
            0 <= len,
            a * a <= n,
            n < (len + 1) * (len + 1),
    ;
    assert(a * t <= len * t) by (nonlinear_arith)
        requires
            a <= len,
            0 < t,
    ;
    lemma_div_is_ordered(a * t, len * t, len);
    lemma_div_multiples_vanish(t, len);
    assert((len * t) / len == t);
    assert(0 <= a * t) by (nonlinear_arith)
        requires
            0 <= a,
            0 < t,
    ;
    lemma_div_is_ordered(0, a * t, len);
}

/// Each component of a scaled vector is bounded by the target magnitude.
pub proof fn lemma_normalized_in_range(v: Vec2, t: int)
    requires
        0 < t,
        v.norm_sq() > 0,
    ensures
        -t <= normalized_x(v, t) <= t,
        -t <= normalized_y(v, t) <= t,
{
    let n = v.norm_sq();
    let a: int = if v.x >= 0 { v.x as int } else { -(v.x as int) };
    let b: int = if v.y >= 0 { v.y as int } else { -(v.y as int) };
    assert(a * a == v.x * v.x && b * b == v.y * v.y && 0 <= a * a && 0 <= b * b)
        by (nonlinear_arith)
        requires
            a == v.x as int || a == -(v.x as int),
            b == v.y as int || b == -(v.y as int),
            0 <= a,
            0 <= b,
    ;
    lemma_isqrt(n);
    let r = isqrt_spec(n);
    if r == 0 {
        assert(n < (0 + 1) * (0 + 1));
    }
    lemma_scale_le(a, t, n, r);
    lemma_scale_le(b, t, n, r);
}

/// Accuracy of `normalize_to` on a vector at least as long as the target
/// `t`: the squared magnitude of the result lies strictly between
/// `(t - 3)^2` and `(t + 1)^2` — the scaled vector misses the target
/// magnitude by less than 3 grid steps.
pub proof fn lemma_normalize_len_bounds(v: Vec2, t: int)
    requires
        5 <= t <= 1_000_000,
        v.in_range(2_000_000_000),
        v.norm_sq() >= t * t,
    ensures
        normalized_x(v, t) * normalized_x(v, t) + normalized_y(v, t) * normalized_y(v, t)
            <= t * t + 2 * t,
        (t - 3) * (t - 3) < normalized_x(v, t) * normalized_x(v, t)
            + normalized_y(v, t) * normalized_y(v, t),
{
    let n = v.norm_sq();
    let a: int = if v.x >= 0 { v.x as int } else { -(v.x as int) };
    let b: int = if v.y >= 0 { v.y as int } else { -(v.y as int) };
    assert(a * a == v.x * v.x && b * b == v.y * v.y && 0 <= a * a && 0 <= b * b)
        by (nonlinear_arith)
        requires
            a == v.x as int || a == -(v.x as int),
            b == v.y as int || b == -(v.y as int),
            0 <= a,
            0 <= b,
    ;
    assert(n == a * a + b * b);
    assert(0 < t * t) by (nonlinear_arith)
        requires
            5 <= t,
    ;
    lemma_isqrt(n);
    let r = isqrt_spec(n);
    assert(t <= r) by (nonlinear_arith)
        requires
            t * t <= n,
            n < (r + 1) * (r + 1),
            0 <= r,
            0 < t,
    ;
    let qx = (a * t) / r;
    let qy = (b * t) / r;
    assert(normalized_x(v, t) == qx || normalized_x(v, t) == -qx);
    assert(normalized_y(v, t) == qy || normalized_y(v, t) == -qy);
    lemma_scale_le(a, t, n, r);
    lemma_scale_le(b, t, n, r);
    assert(normalized_x(v, t) * normalized_x(v, t) == qx * qx) by (nonlinear_arith)
        requires
            normalized_x(v, t) == qx || normalized_x(v, t) == -qx,
    ;
    assert(normalized_y(v, t) * normalized_y(v, t) == qy * qy) by (nonlinear_arith)
        requires
            normalized_y(v, t) == qy || normalized_y(v, t) == -qy,
    ;
    lemma_fundamental_div_mod(a * t, r);
    lemma_mod_bound(a * t, r);
    lemma_fundamental_div_mod(b * t, r);
    lemma_mod_bound(b * t, r);
    assert(r * qx <= a * t && a * t < r * qx + r);
    assert(r * qy <= b * t && b * t < r * qy + r);
    assert(qx * qx * (r * r) <= (a * a) * (t * t)) by (nonlinear_arith)
        requires
            0 <= qx,
            0 <= r,
            0 <= a,
            0 <= t,
            r * qx <= a * t,
    ;
    assert(qy * qy * (r * r) <= (b * b) * (t * t)) by (nonlinear_arith)
        requires
            0 <= qy,
            0 <= r,
            0 <= b,
            0 <= t,
            r * qy <= b * t,
    ;
    assert((qx * qx + qy * qy) * (r * r) <= n * (t * t)) by (nonlinear_arith)
        requires
            qx * qx * (r * r) <= (a * a) * (t * t),
            qy * qy * (r * r) <= (b * b) * (t * t),
            n == a * a + b * b,
    ;
    assert(n <= r * r + 2 * r) by (nonlinear_arith)
        requires
            n < (r + 1) * (r + 1),
    ;
    assert(qx * qx + qy * qy <= t * t + 2 * t) by (nonlinear_arith)
        requires
            (qx * qx + qy * qy) * (r * r) <= n * (t * t),
            n <= r * r + 2 * r,
            t <= r,
            5 <= t,
            0 <= qx,
            0 <= qy,
    ;
    assert((a * t) * (a * t) < (r * qx + r) * (r * qx + r)) by (nonlinear_arith)
        requires
            0 <= a * t,
            a * t < r * qx + r,
    ;
    assert((b * t) * (b * t) < (r * qy + r) * (r * qy + r)) by (nonlinear_arith)
        requires
            0 <= b * t,
            b * t < r * qy + r,
    ;
    assert(n * (t * t) == (a * t) * (a * t) + (b * t) * (b * t)) by (nonlinear_arith)
        requires
            n == a * a + b * b,
    ;
    assert((r * qx + r) * (r * qx + r) + (r * qy + r) * (r * qy + r)
        == (r * r) * ((qx + 1) * (qx + 1) + (qy + 1) * (qy + 1))) by (nonlinear_arith);
    assert(n * (t * t) < (r * r) * ((qx + 1) * (qx + 1) + (qy + 1) * (qy + 1)));
    assert(t * t < (qx + 1) * (qx + 1) + (qy + 1) * (qy + 1)) by (nonlinear_arith)
        requires
            n * (t * t) < (r * r) * ((qx + 1) * (qx + 1) + (qy + 1) * (qy + 1)),
            r * r <= n,
            0 < r,
            0 < t,
    ;
    assert((t - 3) * (t - 3) < qx * qx + qy * qy) by (nonlinear_arith)
        requires
            t * t < (qx + 1) * (qx + 1) + (qy + 1) * (qy + 1),
            qx <= t,
            qy <= t,
            5 <= t,
    ;
}

/// Scaling a vector that already has magnitude `t` returns it unchanged:
/// normalization is idempotent.
pub proof fn lemma_normalize_idempotent(v: Vec2, t: int)
    requires
        0 < t,
        v.norm_sq() == t * t,
    ensures
        normalized_x(v, t) == v.x,
        normalized_y(v, t) == v.y,
{
    lemma_isqrt_square(t);
    lemma_scale_self(v.x as int, t);
    lemma_scale_self(v.y as int, t);
}

/// `scale_coord(c, t, t) == c`: dividing `c * t` by `t` is exact.
proof fn lemma_scale_self(c: int, t: int)
    requires
        0 < t,
    ensures
        scale_coord(c, t, t) == c,
{
    if c >= 0 {
        assert(c * t == t * c) by (nonlinear_arith);
        lemma_div_multiples_vanish(c, t);
    } else {
        assert((-c) * t == t * (-c)) by (nonlinear_arith);
        lemma_div_multiples_vanish(-c, t);
    }
}

/// Scaling an axis-aligned vector is exact: the result has magnitude
/// exactly `t` along the same axis.
pub proof fn lemma_normalize_axis(v: Vec2, t: int)
    requires
        0 < t,
        v.norm_sq() > 0,
        v.x == 0 || v.y == 0,
    ensures
        v.y == 0 ==> normalized_x(v, t) == (if v.x > 0 { t } else { -t }) && normalized_y(v, t) == 0,
        v.x == 0 ==> normalized_y(v, t) == (if v.y > 0 { t } else { -t }) && normalized_x(v, t) == 0,
{
    if v.y == 0 {
        let a: int = if v.x >= 0 { v.x as int } else { -(v.x as int) };
        assert(v.norm_sq() == a * a) by (nonlinear_arith)
            requires
                a == v.x as int || a == -(v.x as int),
                v.y == 0,
        ;
        assert(a > 0) by (nonlinear_arith)
            requires
                a * a > 0,
                0 <= a,
        ;
        lemma_isqrt_square(a);
        lemma_scale_self(v.x as int, a);
        assert(scale_coord(v.x as int, t, a) == (if v.x > 0 { t } else { -t })) by {
            assert(a * t == t * a) by (nonlinear_arith);
            lemma_div_multiples_vanish(t, a);
        }
    } else {
        let a: int = if v.y >= 0 { v.y as int } else { -(v.y as int) };
        assert(v.norm_sq() == a * a) by (nonlinear_arith)
            requires
                a == v.y as int || a == -(v.y as int),
                v.x == 0,
        ;
        assert(a > 0) by (nonlinear_arith)
            requires
                a * a > 0,
                0 <= a,
        ;
        lemma_isqrt_square(a);
        lemma_scale_self(v.y as int, a);
        assert(scale_coord(v.y as int, t, a) == (if v.y > 0 { t } else { -t })) by {
            assert(a * t == t * a) by (nonlinear_arith);
            lemma_div_multiples_vanish(t, a);
        }
    }
}

/// A coordinate clamped into the simulation's coordinate range.
pub open spec fn clamp_spec(c: int) -> int {
    if c < -(POS_LIMIT as int) {
        -(POS_LIMIT as int)
    } else if c > POS_LIMIT as int {
        POS_LIMIT as int
    } else {
        c
    }
}

/// Where a coordinate lands after moving by `d`: the sum, saturated at the
/// coordinate range.
pub open spec fn moved_coord(c: int, d: int) -> int {
    clamp_spec(c + d)
}

/// Clamp a coordinate into the simulation's coordinate range.
pub fn clamp_coord(c: i64) -> (r: i64)
    ensures
        r == clamp_spec(c as int),
        -POS_LIMIT <= r <= POS_LIMIT,
{
    if c < -POS_LIMIT {
        -POS_LIMIT
    } else if c > POS_LIMIT {
        POS_LIMIT
    } else {
        c
    }
}

/// Move coordinate `c` by `d`, saturating at the coordinate range.
pub fn move_coord(c: i64, d: i64) -> (r: i64)
    requires
        -POS_LIMIT <= c <= POS_LIMIT,
        -POS_LIMIT <= d <= POS_LIMIT,
    ensures
        r == moved_coord(c as int, d as int),
        -POS_LIMIT <= r <= POS_LIMIT,
{
    let s = c + d;
    if s < -POS_LIMIT {
        -POS_LIMIT
    } else if s > POS_LIMIT {
        POS_LIMIT
    } else {
        s
    }
}

/// Translate `v` by `d`, saturating each coordinate at the coordinate
/// range.
pub fn translate(v: Vec2, d: Vec2) -> (r: Vec2)
    requires
        v.in_range(POS_LIMIT as int),
        d.in_range(POS_LIMIT as int),
    ensures
        r.x == moved_coord(v.x as int, d.x as int),
        r.y == moved_coord(v.y as int, d.y as int),
        r.in_range(POS_LIMIT as int),
{
    Vec2 { x: move_coord(v.x, d.x), y: move_coord(v.y, d.y) }
}

} // verus!
