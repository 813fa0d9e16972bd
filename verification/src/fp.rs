//! Fixed-point scalar arithmetic.
//!
//! Every scalar quantity of the renderer (coordinate, color channel,
//! material parameter, ray parameter) is an `i64` counting steps of
//! `1/SCALE` of a world unit.  All operations are total: results outside
//! the representable range saturate at `i64::MIN` / `i64::MAX`, and
//! division truncates toward zero.

use vstd::prelude::*;

verus! {

/// Fixed-point steps per world unit.
pub const SCALE: i64 = 1024;

/// Self-intersection threshold: a hit closer than this along the ray is
/// discarded, so a ray leaving a surface does not immediately re-hit it.
/// One fixed-point step is about 0.001 world units.
pub const EPS: i64 = 1;

/// Magnitude of an integer.
pub open spec fn abs_int(x: int) -> int {
    if x < 0 {
        -x
    } else {
        x
    }
}

/// Clamp an unbounded integer into the `i64` range.
pub open spec fn sat64(x: int) -> int {
    if x > i64::MAX as int {
        i64::MAX as int
    } else if x < i64::MIN as int {
        i64::MIN as int
    } else {
        x
    }
}

/// Division truncating toward zero, as machine division does.
pub open spec fn tdiv(x: int, d: int) -> int {
    let q = abs_int(x) / abs_int(d);
    if (x < 0) != (d < 0) {
        -q
    } else {
        q
    }
}

/// Fixed-point sum.
pub open spec fn fadd(a: int, b: int) -> int {
    sat64(a + b)
}

/// Fixed-point difference.
pub open spec fn fsub(a: int, b: int) -> int {
    sat64(a - b)
}

/// Fixed-point product: `a * b` carries a factor `SCALE * SCALE`, so one
/// `SCALE` is divided back out.
pub open spec fn fmul(a: int, b: int) -> int {
    sat64(tdiv(a * b, SCALE as int))
}

/// Fixed-point quotient: the dividend is widened by `SCALE` first.
pub open spec fn fdiv(a: int, b: int) -> int {
    sat64(tdiv(a * SCALE, b))
}

/// Fixed-point negation.
pub open spec fn fneg(a: int) -> int {
    sat64(-a)
}

/// Fixed-point magnitude (saturating at `i64::MAX`).
pub open spec fn fabs(a: int) -> int {
    sat64(abs_int(a))
}

pub open spec fn fmin(a: int, b: int) -> int {
    if a <= b {
        a
    } else {
        b
    }
}

pub open spec fn fmax(a: int, b: int) -> int {
    if a >= b {
        a
    } else {
        b
    }
}

/// Clamp `x` into `[lo, hi]` (callers keep `lo <= hi`).
pub open spec fn fclamp(x: int, lo: int, hi: int) -> int {
    if x < lo {
        lo
    } else if x > hi {
        hi
    } else {
        x
    }
}

/// The square, named so the higher powers below can be written the way
/// the code computes them.
pub open spec fn sq(x: int) -> int {
    x * x
}

pub open spec fn pow5(x: int) -> int {
    sq(sq(x)) * x
}

pub open spec fn pow11(x: int) -> int {
    sq(sq(sq(x))) * sq(x) * x
}

/// `y` is the gamma encoding of `t` (both in `[0, SCALE]`): the largest
/// value with `y^11 <= t^5 * SCALE^6`, i.e. the fixed-point
/// `t ^ (5/11)` rounded down — and `5/11` is exactly `1/2.2`.
pub open spec fn is_gamma_root(t: int, y: int) -> bool {
    &&& 0 <= y
    &&& pow11(y) <= pow5(t) * 0x1000_0000_0000_0000
    &&& pow11(y + 1) > pow5(t) * 0x1000_0000_0000_0000
}

/// The gamma encoding of `t`.
pub open spec fn gamma_root(t: int) -> int {
    choose|y: int| is_gamma_root(t, y)
}

/// Reinhard tone mapping `c / (c + 1)` (negative radiance is clamped to
/// zero first) followed by gamma encoding.
pub open spec fn tone_gamma(c: int) -> int {
    let cc = fmax(c, 0);
    gamma_root(fdiv(cc, fadd(cc, SCALE as int)))
}

/// The powers are monotone on non-negatives.
pub proof fn lemma_pow_monotone(a: int, b: int)
    requires
        0 <= a <= b,
    ensures
        pow5(a) <= pow5(b),
        pow11(a) <= pow11(b),
{
    assert(0 <= sq(a) <= sq(b)) by (nonlinear_arith)
        requires
            0 <= a <= b,
    ;
    assert(0 <= sq(sq(a)) <= sq(sq(b))) by (nonlinear_arith)
        requires
            0 <= sq(a) <= sq(b),
    ;
    assert(0 <= sq(sq(sq(a))) <= sq(sq(sq(b)))) by (nonlinear_arith)
        requires
            0 <= sq(sq(a)) <= sq(sq(b)),
    ;
    assert(pow5(a) <= pow5(b)) by (nonlinear_arith)
        requires
            0 <= sq(sq(a)) <= sq(sq(b)),
            0 <= a <= b,
            pow5(a) == sq(sq(a)) * a,
            pow5(b) == sq(sq(b)) * b,
    ;
    assert(pow11(a) <= pow11(b)) by (nonlinear_arith)
        requires
            0 <= sq(sq(sq(a))) <= sq(sq(sq(b))),
            0 <= sq(a) <= sq(b),
            0 <= a <= b,
            pow11(a) == sq(sq(sq(a))) * sq(a) * a,
            pow11(b) == sq(sq(sq(b))) * sq(b) * b,
    ;
}

/// The gamma root is unique, so any witness equals `gamma_root`.
pub proof fn lemma_gamma_root_unique(t: int, y: int)
    requires
        is_gamma_root(t, y),
    ensures
        y == gamma_root(t),
{
    let y2 = gamma_root(t);
    assert(is_gamma_root(t, y2));
    if y < y2 {
        lemma_pow_monotone(y + 1, y2);
    }
    if y2 < y {
        lemma_pow_monotone(y2 + 1, y);
    }
}

/// `r` is the integer square root of `n`, rounded down.
pub open spec fn is_sqrt_floor(n: int, r: int) -> bool {
    &&& 0 <= r
    &&& r * r <= n
    &&& n < (r + 1) * (r + 1)
}

/// The integer square root of `n`, rounded down (for `n >= 0`).
pub open spec fn sqrt_floor(n: int) -> int {
    choose|r: int| is_sqrt_floor(n, r)
}

/// Every non-negative integer has a floor square root, so `sqrt_floor`
/// of it satisfies `is_sqrt_floor`.
pub proof fn lemma_sqrt_exists(n: int)
    requires
        n >= 0,
    ensures
        is_sqrt_floor(n, sqrt_floor(n)),
    decreases n,
{
    if n == 0 {
        assert(is_sqrt_floor(0, 0)) by (nonlinear_arith);
    } else {
        lemma_sqrt_exists(n - 1);
        let r = sqrt_floor(n - 1);
        if (r + 1) * (r + 1) <= n {
            assert(is_sqrt_floor(n, r + 1)) by (nonlinear_arith)
                requires
                    is_sqrt_floor(n - 1, r),
                    (r + 1) * (r + 1) <= n,
            ;
        } else {
            assert(is_sqrt_floor(n, r));
        }
    }
}

/// The floor square root is unique, so any witness equals `sqrt_floor`.
pub proof fn lemma_sqrt_floor_unique(n: int, r: int)
    requires
        is_sqrt_floor(n, r),
    ensures
        r == sqrt_floor(n),
{
    let r2 = sqrt_floor(n);
    assert(is_sqrt_floor(n, r2));
    assert(r == r2) by (nonlinear_arith)
        requires
            is_sqrt_floor(n, r),
            is_sqrt_floor(n, r2),
    ;
}

/// Multiplying by fixed-point zero gives zero.
pub proof fn lemma_fmul_zero()
    ensures
        forall|c: int| #[trigger] fmul(c, 0) == 0,
        forall|c: int| #[trigger] fmul(0, c) == 0,
{
    vstd::arithmetic::div_mod::lemma_div_of0(SCALE as int);
    assert forall|c: int| #[trigger] fmul(c, 0) == 0 by {
        assert(c * 0 == 0);
        assert(tdiv(0, SCALE as int) == 0);
    }
    assert forall|c: int| #[trigger] fmul(0, c) == 0 by {
        assert(0 * c == 0);
        assert(tdiv(0, SCALE as int) == 0);
    }
}

/// Comparing squares compares non-negative roots.
pub proof fn lemma_sqrt_bound(x: int, n: int, b: int)
    requires
        0 <= x,
        0 <= b,
        x * x <= n,
        n <= b * b,
    ensures
        x <= b,
{
    assert(x <= b) by (nonlinear_arith)
        requires
            0 <= x,
            0 <= b,
            x * x <= n,
            n <= b * b,
    ;
}

/// Truncating division of non-negatives is ordinary division: it stays
/// non-negative and never exceeds the dividend.
pub proof fn lemma_tdiv_nonneg(x: int, d: int)
    requires
        x >= 0,
        d > 0,
    ensures
        0 <= tdiv(x, d) <= x,
{
    vstd::arithmetic::div_mod::lemma_div_pos_is_pos(x, d);
    vstd::arithmetic::div_mod::lemma_div_nonincreasing(x, d);
}

/// Truncating division is monotone in a non-negative dividend.
pub proof fn lemma_tdiv_le(x: int, y: int, d: int)
    requires
        0 <= x <= y,
        d > 0,
    ensures
        tdiv(x, d) <= tdiv(y, d),
{
    vstd::arithmetic::div_mod::lemma_div_is_ordered(x, y, d);
}

/// Truncating a non-positive dividend stays non-positive.
pub proof fn lemma_tdiv_nonpos(x: int, d: int)
    requires
        x <= 0,
        d > 0,
    ensures
        tdiv(x, d) <= 0,
{
    vstd::arithmetic::div_mod::lemma_div_pos_is_pos(-x, d);
}

/// Multiplying by a fixed-point unit copies (or negates) the value,
/// as long as it stays representable.
pub proof fn lemma_fmul_unit(x: int)
    requires
        -0x4000_0000_0000_0000 <= x <= 0x4000_0000_0000_0000,
    ensures
        fmul(1024, x) == x,
        fmul(x, 1024) == x,
        fmul(-1024, x) == -x,
        fmul(x, -1024) == -x,
{
    vstd::arithmetic::div_mod::lemma_div_multiples_vanish(x, 1024);
    vstd::arithmetic::div_mod::lemma_div_multiples_vanish(-x, 1024);
}

/// `lemma_fmul_unit`, quantified.
pub proof fn lemma_fmul_unit_all()
    ensures
        forall|x: int|
            -0x4000_0000_0000_0000 <= x <= 0x4000_0000_0000_0000 ==> #[trigger] fmul(1024, x)
                == x,
        forall|x: int|
            -0x4000_0000_0000_0000 <= x <= 0x4000_0000_0000_0000 ==> #[trigger] fmul(x, 1024)
                == x,
        forall|x: int|
            -0x4000_0000_0000_0000 <= x <= 0x4000_0000_0000_0000 ==> #[trigger] fmul(-1024, x)
                == -x,
        forall|x: int|
            -0x4000_0000_0000_0000 <= x <= 0x4000_0000_0000_0000 ==> #[trigger] fmul(x, -1024)
                == -x,
{
    assert forall|x: int|
        -0x4000_0000_0000_0000 <= x <= 0x4000_0000_0000_0000 implies #[trigger] fmul(1024, x)
        == x by {
        lemma_fmul_unit(x);
    }
    assert forall|x: int|
        -0x4000_0000_0000_0000 <= x <= 0x4000_0000_0000_0000 implies #[trigger] fmul(x, 1024)
        == x by {
        lemma_fmul_unit(x);
    }
    assert forall|x: int|
        -0x4000_0000_0000_0000 <= x <= 0x4000_0000_0000_0000 implies #[trigger] fmul(-1024, x)
        == -x by {
        lemma_fmul_unit(x);
    }
    assert forall|x: int|
        -0x4000_0000_0000_0000 <= x <= 0x4000_0000_0000_0000 implies #[trigger] fmul(x, -1024)
        == -x by {
        lemma_fmul_unit(x);
    }
}

/// A fixed-point product of non-negatives is non-negative.
pub proof fn lemma_fmul_nonneg(a: int, b: int)
    requires
        a >= 0,
        b >= 0,
    ensures
        fmul(a, b) >= 0,
{
    vstd::arithmetic::mul::lemma_mul_nonnegative(a, b);
    lemma_tdiv_nonneg(a * b, SCALE as int);
}

/// A fixed-point square is non-negative.
pub proof fn lemma_fmul_sq_nonneg(a: int)
    ensures
        fmul(a, a) >= 0,
{
    assert(a * a >= 0) by (nonlinear_arith);
    lemma_tdiv_nonneg(a * a, SCALE as int);
}

/// The fixed-point product is monotone on non-negatives.
pub proof fn lemma_fmul_le(a: int, b: int, c: int, d: int)
    requires
        0 <= a <= c,
        0 <= b <= d,
    ensures
        fmul(a, b) <= fmul(c, d),
{
    vstd::arithmetic::mul::lemma_mul_nonnegative(a, b);
    vstd::arithmetic::mul::lemma_mul_upper_bound(a, c, b, d);
    lemma_tdiv_le(a * b, c * d, SCALE as int);
}

/// A fixed-point quotient of a non-negative by a positive is non-negative.
pub proof fn lemma_fdiv_nonneg(a: int, b: int)
    requires
        a >= 0,
        b > 0,
    ensures
        fdiv(a, b) >= 0,
{
    lemma_tdiv_nonneg(a * SCALE as int, b);
}

/// The fixed-point quotient is monotone in a non-negative numerator.
pub proof fn lemma_fdiv_le_num(a: int, c: int, b: int)
    requires
        0 <= a <= c,
        b > 0,
    ensures
        fdiv(a, b) <= fdiv(c, b),
{
    lemma_tdiv_le(a * SCALE as int, c * SCALE as int, b);
}

/// Clamp an `i128` intermediate into the `i64` range.
fn sat_to_i64(x: i128) -> (r: i64)
    ensures
        r as int == sat64(x as int),
{
    if x > i64::MAX as i128 {
        i64::MAX
    } else if x < i64::MIN as i128 {
        i64::MIN
    } else {
        x as i64
    }
}

/// Truncating division on `i128`, via unsigned magnitudes.
pub fn tdiv128(x: i128, d: i128) -> (r: i128)
    requires
        d != 0,
        x > i128::MIN,
        d > i128::MIN,
    ensures
        r as int == tdiv(x as int, d as int),
{
    let neg: bool = (x < 0) != (d < 0);
    let ax: u128 = if x < 0 {
        (-x) as u128
    } else {
        x as u128
    };
    let ad: u128 = if d < 0 {
        (-d) as u128
    } else {
        d as u128
    };
    let q: u128 = ax / ad;
    proof {
        assert(ax as int == abs_int(x as int));
        assert(ad as int == abs_int(d as int));
        assert(q <= ax) by (nonlinear_arith)
            requires
                ad >= 1,
                q == ax / ad,
        ;
    }
    if neg {
        -(q as i128)
    } else {
        q as i128
    }
}

/// Saturating fixed-point sum.
pub fn fp_add(a: i64, b: i64) -> (r: i64)
    ensures
        r as int == fadd(a as int, b as int),
{
    let s: i128 = a as i128 + b as i128;
    sat_to_i64(s)
}

/// Saturating fixed-point difference.
pub fn fp_sub(a: i64, b: i64) -> (r: i64)
    ensures
        r as int == fsub(a as int, b as int),
{
    let s: i128 = a as i128 - b as i128;
    sat_to_i64(s)
}

/// Saturating fixed-point product.
pub fn fp_mul(a: i64, b: i64) -> (r: i64)
    ensures
        r as int == fmul(a as int, b as int),
{
    proof {
        assert((a as int) * (b as int) <= 0x8000_0000_0000_0000 * 0x8000_0000_0000_0000
            && (a as int) * (b as int) >= -(0x8000_0000_0000_0000 * 0x8000_0000_0000_0000))
            by (nonlinear_arith)
            requires
                -0x8000_0000_0000_0000 <= a as int <= 0x7fff_ffff_ffff_ffff,
                -0x8000_0000_0000_0000 <= b as int <= 0x7fff_ffff_ffff_ffff,
        ;
    }
    let p: i128 = (a as i128) * (b as i128);
    let q: i128 = tdiv128(p, SCALE as i128);
    sat_to_i64(q)
}

/// Saturating fixed-point quotient.
pub fn fp_div(a: i64, b: i64) -> (r: i64)
    requires
        b != 0,
    ensures
        r as int == fdiv(a as int, b as int),
{
    proof {
        assert(-0x2000_0000_0000_0000_0000 <= (a as int) * (SCALE as int)
            <= 0x2000_0000_0000_0000_0000) by (nonlinear_arith)
            requires
                -0x8000_0000_0000_0000 <= a as int <= 0x7fff_ffff_ffff_ffff,
                SCALE == 1024,
        ;
    }
    let n: i128 = (a as i128) * (SCALE as i128);
    let q: i128 = tdiv128(n, b as i128);
    sat_to_i64(q)
}

/// Saturating fixed-point negation.
pub fn fp_neg(a: i64) -> (r: i64)
    ensures
        r as int == fneg(a as int),
{
    if a == i64::MIN {
        i64::MAX
    } else {
        -a
    }
}

/// Saturating fixed-point magnitude.
pub fn fp_abs(a: i64) -> (r: i64)
    ensures
        r as int == fabs(a as int),
{
    if a < 0 {
        fp_neg(a)
    } else {
        a
    }
}

pub fn fp_min(a: i64, b: i64) -> (r: i64)
    ensures
        r as int == fmin(a as int, b as int),
{
    if a <= b {
        a
    } else {
        b
    }
}

pub fn fp_max(a: i64, b: i64) -> (r: i64)
    ensures
        r as int == fmax(a as int, b as int),
{
    if a >= b {
        a
    } else {
        b
    }
}

pub fn fp_clamp(x: i64, lo: i64, hi: i64) -> (r: i64)
    ensures
        r as int == fclamp(x as int, lo as int, hi as int),
{
    if x < lo {
        lo
    } else if x > hi {
        hi
    } else {
        x
    }
}

/// Integer square root on `u128`, by bisection.
pub fn isqrt_u128(n: u128) -> (r: u128)
    ensures
        is_sqrt_floor(n as int, r as int),
{
    let mut lo: u128 = 0;
    let mut hi: u128 = 0x1_0000_0000_0000_0000;
    proof {
        assert((hi as int) * (hi as int) > n as int) by (nonlinear_arith)
            requires
                hi == 0x1_0000_0000_0000_0000u128,
                n <= u128::MAX,
        ;
    }
    while hi - lo > 1
        invariant
            lo < hi <= 0x1_0000_0000_0000_0000,
            (lo as int) * (lo as int) <= n as int,
            (n as int) < (hi as int) * (hi as int),
        decreases hi - lo,
    {
        let mid: u128 = lo + (hi - lo) / 2;
        proof {
            assert((mid as int) * (mid as int) <= u128::MAX as int) by (nonlinear_arith)
                requires
                    mid <= 0xffff_ffff_ffff_ffffu128,
            ;
        }
        if mid * mid <= n {
            lo = mid;
        } else {
            hi = mid;
        }
    }
    lo
}

/// Fixed-point square root of a non-negative fixed-point value: the result
/// again carries the factor `SCALE`.
pub fn fp_sqrt(a: i64) -> (r: i64)
    requires
        a >= 0,
    ensures
        r >= 0,
        r as int == sqrt_floor(a * SCALE),
{
    proof {
        assert(0 <= (a as int) * (SCALE as int) <= 0x2000_0000_0000_0000_0000)
            by (nonlinear_arith)
            requires
                0 <= a as int <= 0x7fff_ffff_ffff_ffff,
                SCALE == 1024,
        ;
    }
    let n: u128 = (a as u128) * (SCALE as u128);
    let s: u128 = isqrt_u128(n);
    proof {
        lemma_sqrt_floor_unique(n as int, s as int);
        lemma_sqrt_bound(s as int, n as int, 0x40_0000_0000);
    }
    s as i64
}

/// The fifth power, exactly, for a value up to `SCALE`.
fn pow5_u128(x: u64) -> (r: u128)
    requires
        x <= 1024,
    ensures
        r as int == pow5(x as int),
        r <= 0x4_0000_0000_0000,
{
    let x1: u128 = x as u128;
    proof {
        assert(sq(x as int) <= 0x10_0000 && sq(x as int) >= 0) by (nonlinear_arith)
            requires
                0 <= x as int <= 1024,
        ;
        assert(sq(sq(x as int)) <= 0x100_0000_0000 && sq(sq(x as int)) >= 0) by (nonlinear_arith)
            requires
                0 <= sq(x as int) <= 0x10_0000,
        ;
        assert(sq(sq(x as int)) * (x as int) <= 0x4_0000_0000_0000) by (nonlinear_arith)
            requires
                0 <= sq(sq(x as int)) <= 0x100_0000_0000,
                0 <= x as int <= 1024,
        ;
    }
    let x2: u128 = x1 * x1;
    let x4: u128 = x2 * x2;
    x4 * x1
}

/// The eleventh power, exactly, for a value up to `SCALE + 1`.
fn pow11_u128(x: u64) -> (r: u128)
    requires
        x <= 1025,
    ensures
        r as int == pow11(x as int),
{
    let x1: u128 = x as u128;
    proof {
        assert(0 <= sq(x as int) <= 0x11_0000) by (nonlinear_arith)
            requires
                0 <= x as int <= 1025,
        ;
        assert(0 <= sq(sq(x as int)) <= 0x121_0000_0000) by (nonlinear_arith)
            requires
                0 <= sq(x as int) <= 0x11_0000,
        ;
        assert(0 <= sq(sq(sq(x as int))) <= 0x1_4641_0000_0000_0000_0000) by (nonlinear_arith)
            requires
                0 <= sq(sq(x as int)) <= 0x121_0000_0000,
        ;
        assert(0 <= sq(sq(sq(x as int))) * sq(x as int) <= 0x15_AA91_0000_0000_0000_0000_0000)
            by (nonlinear_arith)
            requires
                0 <= sq(sq(sq(x as int))) <= 0x1_4641_0000_0000_0000_0000,
                0 <= sq(x as int) <= 0x11_0000,
        ;
        assert(0 <= sq(sq(sq(x as int))) * sq(x as int) * (x as int)
            <= 0x5720_6BC4_4000_0000_0000_0000_0000) by (nonlinear_arith)
            requires
                0 <= sq(sq(sq(x as int))) * sq(x as int) <= 0x15_AA91_0000_0000_0000_0000_0000,
                0 <= x as int <= 1025,
        ;
    }
    let x2: u128 = x1 * x1;
    let x4: u128 = x2 * x2;
    let x8: u128 = x4 * x4;
    x8 * x2 * x1
}

/// Gamma-encode a tone-mapped channel: the fixed-point `t ^ (5/11)`
/// rounded down, found by bisection.
pub fn gamma_encode(t: i64) -> (r: i64)
    requires
        0 <= t <= 1024,
    ensures
        r as int == gamma_root(t as int),
        0 <= r <= 1024,
{
    let rhs: u128 = pow5_u128(t as u64) * 0x1000_0000_0000_0000u128;
    let mut lo: u64 = 0;
    let mut hi: u64 = 1025;
    proof {
        lemma_pow_monotone(t as int, 1024);
        assert(pow11(0) == 0);
        assert(1025 * 1025 == 1050625) by (nonlinear_arith);
        assert(1050625 * 1050625 == 1103812890625) by (nonlinear_arith);
        assert(1103812890625 * 1103812890625 == 1218402897509918212890625)
            by (nonlinear_arith);
        assert(1218402897509918212890625 * 1050625 == 1280084544196357822418212890625)
            by (nonlinear_arith);
        assert(1280084544196357822418212890625 * 1025 == 1312086657801266767978668212890625)
            by (nonlinear_arith);
        assert(pow11(1025) == 1312086657801266767978668212890625);
        assert(1024 * 1024 == 1048576) by (nonlinear_arith);
        assert(1048576 * 1048576 == 1099511627776) by (nonlinear_arith);
        assert(1099511627776 * 1024 == 1125899906842624) by (nonlinear_arith);
        assert(pow5(1024) == 1125899906842624);
        assert(1125899906842624 * 0x1000_0000_0000_0000 == 1298074214633706907132624082305024)
            by (nonlinear_arith);
        assert(pow5(1024) * 0x1000_0000_0000_0000 < pow11(1025));
    }
    while hi - lo > 1
        invariant
            lo < hi <= 1025,
            pow11(lo as int) <= rhs as int,
            (rhs as int) < pow11(hi as int),
        decreases hi - lo,
    {
        let mid: u64 = lo + (hi - lo) / 2;
        let p: u128 = pow11_u128(mid);
        if p <= rhs {
            lo = mid;
        } else {
            hi = mid;
        }
    }
    proof {
        lemma_gamma_root_unique(t as int, lo as int);
    }
    lo as i64
}

/// Reinhard tone mapping followed by gamma encoding; see `tone_gamma`.
pub fn tone_map_gamma(c: i64) -> (r: i64)
    ensures
        r as int == tone_gamma(c as int),
        0 <= r <= 1024,
{
    let cc = fp_max(c, 0);
    let denom = fp_add(cc, SCALE);
    let t = fp_div(cc, denom);
    proof {
        lemma_fdiv_nonneg(cc as int, denom as int);
        lemma_tdiv_le(cc as int * SCALE as int, denom as int * SCALE as int, denom as int);
        vstd::arithmetic::div_mod::lemma_div_multiples_vanish(SCALE as int, denom as int);
        assert(denom as int * SCALE as int == SCALE as int * denom as int) by (nonlinear_arith);
    }
    gamma_encode(t)
}

} // verus!
