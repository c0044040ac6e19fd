//! Fixed-point plane geometry.
//!
//! A coordinate is an `i32` counted in thousandths of a world unit (a pixel of
//! the playfield), so that the whole playfield and a wide border around it are
//! represented exactly. Results that leave the `i32` range saturate at its ends.
use vstd::arithmetic::div_mod::lemma_fundamental_div_mod_converse;
use vstd::prelude::*;

verus! {

/// A point of the plane, in thousandths of a world unit.
#[derive(Clone, Copy, Debug, PartialEq, Eq, Structural)]
pub struct Point {
    pub x: i32,
    pub y: i32,
}

/// The size of an axis-aligned box (full width and height), in thousandths of a
/// world unit.
#[derive(Clone, Copy, Debug, PartialEq, Eq, Structural)]
pub struct Hitbox {
    pub w: u32,
    pub h: u32,
}

/// `v` brought into the `i32` range.
pub open spec fn sat(v: int) -> int {
    if v < i32::MIN {
        i32::MIN as int
    } else if v > i32::MAX {
        i32::MAX as int
    } else {
        v
    }
}

/// Division rounded toward zero, for a positive divisor.
pub open spec fn div_trunc(a: int, b: int) -> int {
    if a >= 0 {
        a / b
    } else {
        -((-a) / b)
    }
}

/// Whether `r` is the integer square root of `n`.
pub open spec fn is_root(n: int, r: int) -> bool {
    0 <= r && r * r <= n < (r + 1) * (r + 1)
}

/// The integer square root of a non-negative `n`.
pub open spec fn root(n: int) -> int {
    choose|r: int| is_root(n, r)
}

/// The length of the vector `(x, y)`, rounded down.
pub open spec fn norm(x: int, y: int) -> int {
    root(x * x + y * y)
}

/// The resolution at which `along` measures a direction: lengths are taken of
/// the vector scaled up by this factor, so that rounding the length down to
/// an integer costs at most a part in `FINE` even for the shortest vectors.
pub const FINE: i64 = 0x10_0000;

/// The displacement of length `amount` along the direction of `(dx, dy)`,
/// each component rounded toward zero; none for the zero vector. The length
/// of `(dx, dy)` is measured on the vector scaled by `FINE`, so the result has
/// length `amount` up to rounding: see `close_to_length` and
/// `lemma_along_length`.
pub open spec fn along(dx: int, dy: int, amount: int) -> (int, int) {
    let len = norm(dx * FINE, dy * FINE);
    if len == 0 {
        (0, 0)
    } else {
        (div_trunc(amount * dx * FINE, len), div_trunc(amount * dy * FINE, len))
    }
}

/// The absolute value of `v`.
pub open spec fn abs(v: int) -> int {
    if v < 0 {
        -v
    } else {
        v
    }
}

/// Whether `(x, y)` has length `amount` up to rounding: each component one
/// unit further out would make it longer than `amount`, and its squared
/// length exceeds `amount * amount` by at most a part in `2^18`.
pub open spec fn close_to_length(x: int, y: int, amount: int) -> bool {
    &&& (abs(x) + 1) * (abs(x) + 1) + (abs(y) + 1) * (abs(y) + 1) > amount * amount
    &&& (x * x + y * y) * 0x4_0000 <= amount * amount * 0x4_0001
}

/// The point `p` moved by `(dx, dy)`, saturating.
pub open spec fn offset(p: Point, dx: int, dy: int) -> Point {
    Point { x: sat(p.x + dx) as i32, y: sat(p.y + dy) as i32 }
}

proof fn lemma_root_unique(n: int, r1: int, r2: int)
    requires
        is_root(n, r1),
        is_root(n, r2),
    ensures
        r1 == r2,
{
    if r1 < r2 {
        assert((r1 + 1) * (r1 + 1) <= r2 * r2) by (nonlinear_arith)
            requires
                0 <= r1,
                r1 + 1 <= r2,
        ;
    } else if r2 < r1 {
        assert((r2 + 1) * (r2 + 1) <= r1 * r1) by (nonlinear_arith)
            requires
                0 <= r2,
                r2 + 1 <= r1,
        ;
    }
}

/// Any integer square root of `n` is `root(n)`.
pub proof fn lemma_root_is(n: int, r: int)
    requires
        is_root(n, r),
    ensures
        root(n) == r,
{
    assert(is_root(n, root(n)));
    lemma_root_unique(n, r, root(n));
}

/// `v` saturated into the `i32` range.
pub fn saturate(v: i128) -> (r: i32)
    ensures
        r == sat(v as int),
{
    if v < i32::MIN as i128 {
        i32::MIN
    } else if v > i32::MAX as i128 {
        i32::MAX
    } else {
        v as i32
    }
}

/// `a / b` rounded toward zero.
pub fn div_toward_zero(a: i128, b: i128) -> (r: i128)
    requires
        b > 0,
        a > i128::MIN,
    ensures
        r == div_trunc(a as int, b as int),
{
    if a >= 0 {
        ((a as u128) / (b as u128)) as i128
    } else {
        let q = ((-a) as u128) / (b as u128);
        -(q as i128)
    }
}

/// `a / b` rounded down.
pub fn div_floor(a: i64, b: i64) -> (r: i64)
    requires
        b > 0,
    ensures
        r == (a as int) / (b as int),
{
    if a >= 0 {
        ((a as u64) / (b as u64)) as i64
    } else {
        let m: u64 = (-(a as i128)) as u64;
        let q: u64 = (m + b as u64 - 1) / (b as u64);
        proof {
            let t = m + b - 1;
            let rem = t % (b as int);
            vstd::arithmetic::div_mod::lemma_fundamental_div_mod(t, b as int);
            vstd::arithmetic::div_mod::lemma_mod_pos_bound(t, b as int);
            assert(t == b * q + rem);
            assert(a == (-q) * b + (b - 1 - rem)) by (nonlinear_arith)
                requires
                    t == b * q + rem,
                    t == m + b - 1,
                    m == -a,
            ;
            lemma_fundamental_div_mod_converse(a as int, b as int, -q, b - 1 - rem);
            assert(q <= m) by (nonlinear_arith)
                requires
                    b * q <= m + b - 1,
                    b > 0,
                    m > 0,
            ;
        }
        (-(q as i128)) as i64
    }
}

/// The integer square root of `n`.
pub fn isqrt(n: u128) -> (r: u64)
    requires
        n < 0x1_0000_0000_0000_0000_0000_0000_000,
    ensures
        is_root(n as int, r as int),
        r == root(n as int),
{
    let mut lo: u64 = 0;
    let mut hi: u64 = 0x40_0000_0000_0000;
    assert((hi as int) * (hi as int) == 0x1_0000_0000_0000_0000_0000_0000_000) by (nonlinear_arith)
        requires
            hi == 0x40_0000_0000_0000,
    ;
    while lo + 1 < hi
        invariant
            lo < hi <= 0x40_0000_0000_0000,
            (lo as int) * (lo as int) <= n,
            n < (hi as int) * (hi as int),
        decreases hi - lo,
    {
        let mid: u64 = lo + (hi - lo) / 2;
        assert((mid as int) * (mid as int) <= 0x1_0000_0000_0000_0000_0000_0000_000) by (nonlinear_arith)
            requires
                mid <= 0x40_0000_0000_0000,
        ;
        let sq: u128 = (mid as u128) * (mid as u128);
        if sq <= n {
            lo = mid;
        } else {
            hi = mid;
        }
    }
    proof {
        lemma_root_is(n as int, lo as int);
    }
    lo
}

/// Every non-negative integer has an integer square root.
pub proof fn lemma_root_exists(n: int)
    requires
        n >= 0,
    ensures
        is_root(n, root(n)),
    decreases n,
{
    if n == 0 {
        assert(is_root(0, 0));
    } else {
        lemma_root_exists(n - 1);
        let r = root(n - 1);
        if (r + 1) * (r + 1) <= n {
            assert((r + 2) * (r + 2) > n) by (nonlinear_arith)
                requires
                    r >= 0,
                    n - 1 < (r + 1) * (r + 1),
            ;
            assert(is_root(n, r + 1));
        } else {
            assert(is_root(n, r));
        }
    }
}

/// A root is at least any `m >= 0` whose square does not exceed its argument.
proof fn lemma_root_at_least(n: int, r: int, m: int)
    requires
        is_root(n, r),
        0 <= m,
        m * m <= n,
    ensures
        m <= r,
{
    if r < m {
        assert((r + 1) * (r + 1) <= m * m) by (nonlinear_arith)
            requires
                0 <= r,
                r + 1 <= m,
        ;
    }
}

proof fn lemma_trunc_facts(a: int, b: int)
    requires
        b >= 1,
    ensures
        abs(div_trunc(a, b)) * b <= abs(a) < (abs(div_trunc(a, b)) + 1) * b,
        (a >= 0 ==> div_trunc(a, b) >= 0),
        (a < 0 ==> div_trunc(a, b) <= 0),
{
    let m = abs(a);
    vstd::arithmetic::div_mod::lemma_fundamental_div_mod(m, b);
    vstd::arithmetic::div_mod::lemma_mod_pos_bound(m, b);
    vstd::arithmetic::div_mod::lemma_div_pos_is_pos(m, b);
    let q = m / b;
    assert(abs(div_trunc(a, b)) == q);
    assert(q * b <= m < (q + 1) * b) by (nonlinear_arith)
        requires
            m == b * q + m % b,
            0 <= m % b < b,
    ;
}

proof fn lemma_abs_square(v: int)
    ensures
        abs(v) * abs(v) == v * v,
        abs(v) >= 0,
{
    if v < 0 {
        assert((-v) * (-v) == v * v) by (nonlinear_arith);
    }
}

proof fn lemma_square_le(a: int, b: int)
    requires
        0 <= a <= b,
    ensures
        a * a <= b * b,
{
    assert(a * a <= b * b) by (nonlinear_arith)
        requires
            0 <= a <= b,
    ;
}

proof fn lemma_square_lt(a: int, b: int)
    requires
        0 <= a < b,
    ensures
        a * a < b * b,
{
    assert(a * a < b * b) by (nonlinear_arith)
        requires
            0 <= a < b,
    ;
}

/// `along` keeps the length: for a non-zero direction the displacement has
/// length `amount` up to rounding, and no component exceeds `amount`.
pub proof fn lemma_along_length(dx: int, dy: int, amount: int)
    requires
        dx != 0 || dy != 0,
        amount >= 0,
    ensures
        close_to_length(along(dx, dy, amount).0, along(dx, dy, amount).1, amount),
        abs(along(dx, dy, amount).0) <= amount,
        abs(along(dx, dy, amount).1) <= amount,
{
    let s = FINE as int;
    let sx = dx * s;
    let sy = dy * s;
    let n = sx * sx + sy * sy;
    assert(n >= s * s) by (nonlinear_arith)
        requires
            n == sx * sx + sy * sy,
            sx == dx * s,
            sy == dy * s,
            dx != 0 || dy != 0,
            s > 0,
    ;
    lemma_root_exists(n);
    let len = root(n);
    assert(norm(sx, sy) == len);
    assert(sx * sx <= n && sy * sy <= n) by (nonlinear_arith)
        requires
            n == sx * sx + sy * sy,
    ;
    assert(abs(sx) * abs(sx) == sx * sx && abs(sy) * abs(sy) == sy * sy) by (nonlinear_arith);
    lemma_root_at_least(n, len, s);
    lemma_root_at_least(n, len, abs(sx));
    lemma_root_at_least(n, len, abs(sy));
    let ax = amount * dx * s;
    let ay = amount * dy * s;
    assert(ax == amount * sx && ay == amount * sy) by (nonlinear_arith)
        requires
            ax == amount * dx * s,
            ay == amount * dy * s,
            sx == dx * s,
            sy == dy * s,
    ;
    assert(abs(ax) == amount * abs(sx) && abs(ay) == amount * abs(sy)) by (nonlinear_arith)
        requires
            ax == amount * sx,
            ay == amount * sy,
            amount >= 0,
    ;
    let rx = div_trunc(ax, len);
    let ry = div_trunc(ay, len);
    assert(along(dx, dy, amount) == (rx, ry));
    lemma_trunc_facts(ax, len);
    lemma_trunc_facts(ay, len);
    let qx = abs(rx);
    let qy = abs(ry);
    lemma_abs_square(ax);
    lemma_abs_square(ay);
    lemma_abs_square(rx);
    lemma_abs_square(ry);
    // no component exceeds amount
    assert(qx <= amount) by (nonlinear_arith)
        requires
            qx * len <= amount * abs(sx),
            abs(sx) <= len,
            len >= 1,
            amount >= 0,
            qx >= 0,
    ;
    assert(qy <= amount) by (nonlinear_arith)
        requires
            qy * len <= amount * abs(sy),
            abs(sy) <= len,
            len >= 1,
            amount >= 0,
            qy >= 0,
    ;
    // never short
    assert(amount * amount * n == ax * ax + ay * ay) by (nonlinear_arith)
        requires
            n == sx * sx + sy * sy,
            ax == amount * sx,
            ay == amount * sy,
    ;
    lemma_square_lt(abs(ax), (qx + 1) * len);
    lemma_square_lt(abs(ay), (qy + 1) * len);
    assert(((qx + 1) * len) * ((qx + 1) * len) + ((qy + 1) * len) * ((qy + 1) * len) == ((qx + 1)
        * (qx + 1) + (qy + 1) * (qy + 1)) * (len * len)) by (nonlinear_arith);
    assert(((qx + 1) * (qx + 1) + (qy + 1) * (qy + 1)) * (len * len) > ax * ax + ay * ay);
    assert(len * len <= n);
    assert(amount * amount * (len * len) <= amount * amount * n) by (nonlinear_arith)
        requires
            len * len <= n,
    ;
    assert((qx + 1) * (qx + 1) + (qy + 1) * (qy + 1) > amount * amount) by (nonlinear_arith)
        requires
            ((qx + 1) * (qx + 1) + (qy + 1) * (qy + 1)) * (len * len) > amount * amount * (len * len),
            len >= 1,
    ;
    // never long by more than a part in 2^18
    lemma_square_le(qx * len, abs(ax));
    lemma_square_le(qy * len, abs(ay));
    assert((qx * len) * (qx * len) + (qy * len) * (qy * len) == (qx * qx + qy * qy) * (len * len))
        by (nonlinear_arith);
    assert((rx * rx + ry * ry) * (len * len) <= ax * ax + ay * ay);
    assert(amount * amount * n <= amount * amount * ((len + 1) * (len + 1))) by (nonlinear_arith)
        requires
            n < (len + 1) * (len + 1),
    ;
    assert((len + 1) * (len + 1) * 0x4_0000 <= len * len * 0x4_0001) by (nonlinear_arith)
        requires
            len >= 0x10_0000,
    ;
    assert(amount * amount * ((len + 1) * (len + 1)) * 0x4_0000 <= amount * amount * (len * len) * 0x4_0001)
        by (nonlinear_arith)
        requires
            (len + 1) * (len + 1) * 0x4_0000 <= len * len * 0x4_0001,
    ;
    assert((rx * rx + ry * ry) * 0x4_0000 <= amount * amount * 0x4_0001) by (nonlinear_arith)
        requires
            (rx * rx + ry * ry) * (len * len) * 0x4_0000 <= amount * amount * (len * len) * 0x4_0001,
            len >= 1,
    ;
}

/// The displacement of length `amount` along `(dx, dy)`: see `along`.
pub fn toward(dx: i64, dy: i64, amount: u64) -> (r: (i128, i128))
    requires
        -0x2_0000_0000 <= dx <= 0x2_0000_0000,
        -0x2_0000_0000 <= dy <= 0x2_0000_0000,
    ensures
        (r.0 as int, r.1 as int) == along(dx as int, dy as int, amount as int),
        dx == 0 && dy == 0 ==> r == (0i128, 0i128),
        dx != 0 || dy != 0 ==> close_to_length(r.0 as int, r.1 as int, amount as int),
        -(amount as int) <= r.0 <= amount,
        -(amount as int) <= r.1 <= amount,
{
    let sx: i64 = dx * FINE;
    let sy: i64 = dy * FINE;
    assert(-0x20_0000_0000_0000 <= sx <= 0x20_0000_0000_0000);
    assert(-0x20_0000_0000_0000 <= sy <= 0x20_0000_0000_0000);
    let ghost b: int = 0x4_0000_0000_0000_0000_0000_0000_00int;
    assert(0 <= (sx as int) * (sx as int) <= b) by (nonlinear_arith)
        requires
            b == 0x4_0000_0000_0000_0000_0000_0000_00int,
            -0x20_0000_0000_0000 <= sx <= 0x20_0000_0000_0000,
    ;
    assert(0 <= (sy as int) * (sy as int) <= b) by (nonlinear_arith)
        requires
            b == 0x4_0000_0000_0000_0000_0000_0000_00int,
            -0x20_0000_0000_0000 <= sy <= 0x20_0000_0000_0000,
    ;
    let xx = (sx as i128) * (sx as i128);
    let yy = (sy as i128) * (sy as i128);
    let len = isqrt((xx + yy) as u128);
    if len == 0 {
        proof {
            if dx != 0 || dy != 0 {
                lemma_along_length(dx as int, dy as int, amount as int);
            }
        }
        (0, 0)
    } else {
        let ghost lim: int = 0x4_0000_0000_0000_0000_0000_0000_0000_0int;
        assert(-lim <= (amount as int) * (sx as int) <= lim) by (nonlinear_arith)
            requires
                lim == 0x4_0000_0000_0000_0000_0000_0000_0000_0int,
                0 <= amount < 0x1_0000_0000_0000_0000,
                -0x20_0000_0000_0000 <= sx <= 0x20_0000_0000_0000,
        ;
        assert(-lim <= (amount as int) * (sy as int) <= lim) by (nonlinear_arith)
            requires
                lim == 0x4_0000_0000_0000_0000_0000_0000_0000_0int,
                0 <= amount < 0x1_0000_0000_0000_0000,
                -0x20_0000_0000_0000 <= sy <= 0x20_0000_0000_0000,
        ;
        let ax = (amount as i128) * (sx as i128);
        let ay = (amount as i128) * (sy as i128);
        assert(ax == (amount as int) * (dx as int) * FINE && ay == (amount as int) * (dy as int) * FINE)
            by (nonlinear_arith)
            requires
                ax == (amount as int) * (sx as int),
                ay == (amount as int) * (sy as int),
                sx == dx * FINE,
                sy == dy * FINE,
        ;
        let qx = div_toward_zero(ax, len as i128);
        let qy = div_toward_zero(ay, len as i128);
        proof {
            assert(dx != 0 || dy != 0) by {
                if dx == 0 && dy == 0 {
                    assert(sx == 0 && sy == 0);
                    assert(xx == 0 && yy == 0) by (nonlinear_arith)
                        requires
                            sx == 0,
                            sy == 0,
                            xx == (sx as int) * (sx as int),
                            yy == (sy as int) * (sy as int),
                    ;
                    assert(len == 0) by (nonlinear_arith)
                        requires
                            (len as int) * (len as int) <= 0,
                    ;
                }
            }
            lemma_along_length(dx as int, dy as int, amount as int);
        }
        (qx, qy)
    }
}

/// The point `p` moved by `(dx, dy)`, saturating.
pub fn translate(p: Point, dx: i128, dy: i128) -> (r: Point)
    requires
        -0x10_0000_0000_0000_0000_0000_0000 <= dx <= 0x10_0000_0000_0000_0000_0000_0000,
        -0x10_0000_0000_0000_0000_0000_0000 <= dy <= 0x10_0000_0000_0000_0000_0000_0000,
    ensures
        r == offset(p, dx as int, dy as int),
{
    Point { x: saturate(p.x as i128 + dx), y: saturate(p.y as i128 + dy) }
}

} // verus!
