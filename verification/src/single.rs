//! Single-precision arithmetic on whole numbers.
//!
//! A number is counted in units of two to the minus sixty, of which every
//! single-precision number of at least two to the minus thirty-seven is a whole
//! number. What an operation gives is its exact result, rounded to the nearest
//! number of twenty-four significant bits, and from halfway to the even one.

use vstd::arithmetic::div_mod::lemma_fundamental_div_mod;
use vstd::prelude::*;

verus! {

/// The number one.
pub const ONE: i64 = 1_152_921_504_606_846_976;

/// `n / d` as the nearest whole number, and from halfway the even one.
pub open spec fn half_even(n: nat, d: nat) -> nat {
    let q = n / d;
    let r = n % d;
    if 2 * r > d || (2 * r == d && q % 2 == 1) {
        q + 1
    } else {
        q
    }
}

/// `n / d` rounded to twenty-four significant bits.
pub open spec fn rounded_size(n: nat, d: nat) -> nat
    decreases n - d,
{
    if d == 0 || n < 0x100_0000 * d {
        half_even(n, d)
    } else {
        2 * rounded_size(n, 2 * d)
    }
}

/// `n / d` in single precision.
pub open spec fn rounded(n: int, d: nat) -> int {
    if n >= 0 {
        rounded_size(n as nat, d) as int
    } else {
        -(rounded_size((-n) as nat, d) as int)
    }
}

/// Whether a number of units is a single-precision number.
pub open spec fn is_single(n: int) -> bool {
    rounded(n, 1) == n
}

/// The number nearest to `x` that can be held.
pub open spec fn held(x: int) -> i64 {
    if x < i64::MIN {
        i64::MIN
    } else if x > i64::MAX {
        i64::MAX
    } else {
        x as i64
    }
}

pub open spec fn two_to(k: nat) -> nat
    decreases k,
{
    if k == 0 {
        1
    } else {
        2 * two_to((k - 1) as nat)
    }
}

// ---------------------------------------------------------------------------
// What rounding does
// ---------------------------------------------------------------------------

/// What is rounded to a whole number is off by no more than a half.
pub proof fn lemma_half_even(n: nat, d: nat)
    requires
        d > 0,
    ensures
        2 * (half_even(n, d) * d) <= 2 * n + d,
        2 * n <= 2 * (half_even(n, d) * d) + d,
        n / d <= half_even(n, d) <= n / d + 1,
{
    lemma_fundamental_div_mod(n as int, d as int);
    let q = n / d;
    let r = n % d;
    assert(0 <= r < d);
    assert((q + 1) * d == q * d + d) by (nonlinear_arith);
    assert(d * q == q * d) by (nonlinear_arith);
}

proof fn lemma_whole(q: nat, d: nat)
    requires
        d > 0,
    ensures
        half_even(q * d, d) == q,
{
    let n = q * d;
    lemma_half_even(n, d);
    let h = half_even(n, d);
    assert(h == q) by (nonlinear_arith)
        requires
            d > 0,
            n == q * d,
            2 * (h * d) <= 2 * n + d,
            2 * n <= 2 * (h * d) + d,
            h != q ==> h == q + 1 || h >= q + 2 || h + 1 == q || h + 2 <= q,
    ;
}

proof fn lemma_quotient_bounds(n: nat, d: nat, k: nat)
    requires
        d > 0,
    ensures
        n >= k * d ==> n / d >= k,
        n < k * d ==> n / d < k,
{
    lemma_fundamental_div_mod(n as int, d as int);
    let q = n / d;
    let r = n % d;
    assert(0 <= r < d);
    assert(n == d * q + r);
    assert(n >= k * d ==> q >= k) by (nonlinear_arith)
        requires
            d > 0,
            n == d * q + r,
            0 <= r < d,
    ;
    assert(n < k * d ==> q < k) by (nonlinear_arith)
        requires
            d > 0,
            n == d * q + r,
            0 <= r < d,
    ;
}

/// Rounding is off by no more than a half unit, or than one part in two to the
/// twenty-four.
pub proof fn lemma_rounding_error(n: nat, d: nat)
    requires
        d > 0,
    ensures
        n < 0x100_0000 * d ==> {
            &&& 2 * (rounded_size(n, d) * d) <= 2 * n + d
            &&& 2 * n <= 2 * (rounded_size(n, d) * d) + d
            &&& rounded_size(n, d) <= 0x100_0000
        },
        n >= 0x100_0000 * d ==> {
            &&& 0x100_0000 * (rounded_size(n, d) * d) <= 0x100_0000 * n + n
            &&& 0x100_0000 * n <= 0x100_0000 * (rounded_size(n, d) * d) + n
        },
        n >= 0x80_0000 * d ==> rounded_size(n, d) >= 0x80_0000,
    decreases n - d,
{
    if n < 0x100_0000 * d {
        lemma_half_even(n, d);
        lemma_quotient_bounds(n, d, 0x100_0000);
        lemma_quotient_bounds(n, d, 0x80_0000);
    } else {
        lemma_rounding_error(n, 2 * d);
        let half = rounded_size(n, 2 * d);
        assert((2 * half) * d == half * (2 * d)) by (nonlinear_arith);
    }
}

/// Rounding keeps the order.
pub proof fn lemma_rounding_keeps_order(n: nat, m: nat, d: nat)
    requires
        d > 0,
        n <= m,
    ensures
        rounded_size(n, d) <= rounded_size(m, d),
    decreases m - d,
{
    if m < 0x100_0000 * d {
        lemma_half_even(n, d);
        lemma_half_even(m, d);
        let a = half_even(n, d);
        let b = half_even(m, d);
        if n < m {
            assert(a <= b) by (nonlinear_arith)
                requires
                    d > 0,
                    n < m,
                    2 * (a * d) <= 2 * n + d,
                    2 * m <= 2 * (b * d) + d,
            ;
        }
    } else if n < 0x100_0000 * d {
        lemma_rounding_error(n, d);
        lemma_rounding_error(m, 2 * d);
    } else {
        lemma_rounding_keeps_order(n, m, 2 * d);
    }
}

/// A number with no more than twenty-four significant bits is left as it is.
pub proof fn lemma_exact(q: nat, k: nat, d: nat)
    requires
        d > 0,
        q <= 0x100_0000,
    ensures
        rounded_size((q * two_to(k)) * d, d) == q * two_to(k),
    decreases k,
{
    let p = two_to(k);
    let n = (q * p) * d;
    if n < 0x100_0000 * d {
        lemma_whole(q * p, d);
    } else if k == 0 {
        reveal_with_fuel(rounded_size, 2);
        assert(q * 1 == q) by (nonlinear_arith);
        assert(q == 0x100_0000) by (nonlinear_arith)
            requires
                d > 0,
                q <= 0x100_0000,
                n == q * d,
                n >= 0x100_0000 * d,
        ;
        assert(n < 0x100_0000 * (2 * d));
        assert(n == 0x80_0000 * (2 * d));
        lemma_whole(0x80_0000, 2 * d);
    } else {
        let h = two_to((k - 1) as nat);
        assert(n == (q * h) * (2 * d)) by (nonlinear_arith)
            requires
                n == (q * p) * d,
                p == 2 * h,
        ;
        lemma_exact(q, (k - 1) as nat, 2 * d);
        assert(2 * (q * h) == q * p) by (nonlinear_arith)
            requires
                p == 2 * h,
        ;
    }
}

/// A large number is rounded to a multiple of a power of two.
pub proof fn lemma_scaled(n: nat, d: nat, k: nat)
    requires
        d > 0,
        n >= 0x80_0000 * (two_to(k) * d),
    ensures
        rounded_size(n, d) == two_to(k) * rounded_size(n, two_to(k) * d),
    decreases k,
{
    if k > 0 {
        let p = two_to(k);
        let h = two_to((k - 1) as nat);
        lemma_two_to_is_positive((k - 1) as nat);
        assert(p * d == h * (2 * d)) by (nonlinear_arith)
            requires
                p == 2 * h,
        ;
        assert(n >= 0x100_0000 * d) by (nonlinear_arith)
            requires
                n >= 0x80_0000 * (p * d),
                p == 2 * h,
                h >= 1,
                d > 0,
        ;
        lemma_scaled(n, 2 * d, (k - 1) as nat);
        let x = rounded_size(n, p * d);
        assert(2 * (h * x) == p * x) by (nonlinear_arith)
            requires
                p == 2 * h,
        ;
    } else {
        let x = rounded_size(n, d);
        assert(two_to(0) * d == d) by (nonlinear_arith)
            requires
                two_to(0) == 1,
        ;
        assert(two_to(0) * x == x) by (nonlinear_arith)
            requires
                two_to(0) == 1,
        ;
    }
}

/// What is rounded is a single-precision number.
pub proof fn lemma_rounded_is_single(n: int, d: nat)
    requires
        d > 0,
    ensures
        is_single(rounded(n, d)),
{
    let size: nat = if n >= 0 {
        n as nat
    } else {
        (-n) as nat
    };
    let (q, k) = lemma_significand(size, d);
    lemma_exact(q, k, 1);
    assert((q * two_to(k)) * 1 == q * two_to(k));
}

proof fn lemma_significand(n: nat, d: nat) -> (r: (nat, nat))
    requires
        d > 0,
    ensures
        r.0 <= 0x100_0000,
        rounded_size(n, d) == r.0 * two_to(r.1),
    decreases n - d,
{
    if n < 0x100_0000 * d {
        lemma_rounding_error(n, d);
        let q = rounded_size(n, d);
        assert(q * two_to(0) == q) by (nonlinear_arith)
            requires
                two_to(0) == 1,
        ;
        (q, 0)
    } else {
        let (q, k) = lemma_significand(n, 2 * d);
        let p = two_to(k);
        assert(2 * (q * p) == q * (2 * p)) by (nonlinear_arith);
        (q, k + 1)
    }
}

/// The difference of two numbers of at least a sixty-fourth that lie close to
/// each other is exact.
pub proof fn lemma_close_difference(a: int, b: int)
    requires
        is_single(a),
        is_single(b),
        a >= 0x40_0000_0000_0000,
        b >= 0x40_0000_0000_0000,
        -0x80_0000_0000_0000 <= b - a <= 0x80_0000_0000_0000,
    ensures
        is_single(b - a),
{
    assert(two_to(31) == 0x8000_0000) by {
        reveal_with_fuel(two_to, 32);
    }
    lemma_scaled(a as nat, 1, 31);
    lemma_scaled(b as nat, 1, 31);
    let x = rounded_size(a as nat, two_to(31) * 1);
    let y = rounded_size(b as nat, two_to(31) * 1);
    assert(two_to(31) * x == 0x8000_0000 * x && two_to(31) * y == 0x8000_0000 * y)
        by (nonlinear_arith)
        requires
            two_to(31) == 0x8000_0000,
    ;
    let m: nat = if y >= x {
        (y - x) as nat
    } else {
        (x - y) as nat
    };
    assert(m <= 0x100_0000);
    lemma_exact(m, 31, 1);
    assert(m * two_to(31) == 0x8000_0000 * m) by (nonlinear_arith)
        requires
            two_to(31) == 0x8000_0000,
    ;
    assert((m * two_to(31)) * 1 == m * two_to(31));
}

pub proof fn lemma_two_to_is_positive(k: nat)
    ensures
        two_to(k) >= 1,
    decreases k,
{
    if k > 0 {
        lemma_two_to_is_positive((k - 1) as nat);
    }
}

/// The order of signed numbers.
pub proof fn lemma_rounded_keeps_order(n: int, m: int, d: nat)
    requires
        d > 0,
        n <= m,
    ensures
        rounded(n, d) <= rounded(m, d),
{
    if n >= 0 {
        lemma_rounding_keeps_order(n as nat, m as nat, d);
    } else if m < 0 {
        lemma_rounding_keeps_order((-m) as nat, (-n) as nat, d);
    }
}

/// How far rounding takes a signed number.
pub proof fn lemma_rounded_error(x: int)
    ensures
        x >= 0 ==> 0x100_0000 * rounded(x, 1) <= 0x100_0000 * x + x,
        x >= 0 ==> 0x100_0000 * x <= 0x100_0000 * rounded(x, 1) + x,
        x <= 0 ==> 0x100_0000 * rounded(x, 1) <= 0x100_0000 * x - x,
        x <= 0 ==> 0x100_0000 * x <= 0x100_0000 * rounded(x, 1) - x,
        -0x100_0000 < x < 0x100_0000 ==> rounded(x, 1) == x,
{
    let n: nat = if x >= 0 {
        x as nat
    } else {
        (-x) as nat
    };
    lemma_rounding_error(n, 1);
    assert(rounded_size(n, 1) * 1 == rounded_size(n, 1));
}

// ---------------------------------------------------------------------------
// Rounding
// ---------------------------------------------------------------------------

fn round_size(n: u128, d: u128) -> (r: u128)
    requires
        d > 0,
        n < 0x2000_0000_0000_0000_0000_0000_0000_0000,
    ensures
        r == rounded_size(n as nat, d as nat),
        r < 0x4000_0000_0000_0000_0000_0000_0000_0000,
{
    let mut den: u128 = d;
    let mut scale: u128 = 1;
    while n / 0x100_0000 >= den
        invariant
            den > 0,
            n < 0x2000_0000_0000_0000_0000_0000_0000_0000,
            scale >= 1,
            scale <= den,
            scale == 1 || scale * 0x80_0000 <= n,
            rounded_size(n as nat, d as nat) == scale * rounded_size(n as nat, den as nat),
        decreases n - den,
    {
        let ghost x = rounded_size(n as nat, (2 * den) as nat);
        let ghost s = scale;
        assert(s * (2 * x) == (2 * s) * x) by (nonlinear_arith);
        den = 2 * den;
        scale = 2 * scale;
    }
    proof {
        lemma_rounding_error(n as nat, den as nat);
    }
    let q: u128 = n / den;
    let rest: u128 = n % den;
    let up: bool = rest > den - rest || (rest == den - rest && q % 2 == 1);
    let whole: u128 = if up {
        q + 1
    } else {
        q
    };
    assert(whole == half_even(n as nat, den as nat));
    assert(whole * scale <= 0x100_0000 * scale) by (nonlinear_arith)
        requires
            0 <= whole <= 0x100_0000,
            scale >= 1,
    ;
    assert(scale * whole == whole * scale) by (nonlinear_arith);
    whole * scale
}

/// `n / d` in single precision.
pub fn round(n: i128, d: u128) -> (r: i128)
    requires
        d > 0,
        -0x2000_0000_0000_0000_0000_0000_0000_0000 < n
            < 0x2000_0000_0000_0000_0000_0000_0000_0000,
    ensures
        r == rounded(n as int, d as nat),
{
    if n >= 0 {
        round_size(n as u128, d) as i128
    } else {
        -(round_size((-n) as u128, d) as i128)
    }
}

/// The number nearest to `x` that can be held.
pub fn hold(x: i128) -> (r: i64)
    ensures
        r == held(x as int),
{
    if x < i64::MIN as i128 {
        i64::MIN
    } else if x > i64::MAX as i128 {
        i64::MAX
    } else {
        x as i64
    }
}

// ---------------------------------------------------------------------------
// Laws
// ---------------------------------------------------------------------------

/// What is rounded to a whole number goes to the nearest one, and from halfway
/// between two to the even one.
pub proof fn law_halves_go_to_the_even(n: nat, d: nat, q: nat)
    requires
        d > 0,
    ensures
        2 * n < (2 * q + 1) * d && (2 * q - 1) * d < 2 * n ==> half_even(n, d) == q,
        2 * n == (2 * q + 1) * d && q % 2 == 0 ==> half_even(n, d) == q,
        2 * n == (2 * q + 1) * d && q % 2 == 1 ==> half_even(n, d) == q + 1,
{
    lemma_half_even(n, d);
    lemma_fundamental_div_mod(n as int, d as int);
    let h = half_even(n, d);
    let k = n / d;
    let r = n % d;
    if 2 * n < (2 * q + 1) * d && (2 * q - 1) * d < 2 * n {
        assert(h == q) by (nonlinear_arith)
            requires
                d > 0,
                2 * n < (2 * q + 1) * d,
                (2 * q - 1) * d < 2 * n,
                2 * (h * d) <= 2 * n + d,
                2 * n <= 2 * (h * d) + d,
        ;
    }
    if 2 * n == (2 * q + 1) * d {
        assert(k == q && 2 * r == d) by (nonlinear_arith)
            requires
                d > 0,
                2 * n == (2 * q + 1) * d,
                n == d * k + r,
                0 <= r < d,
        ;
    }
}

/// A number keeps twenty-four significant bits: it is rounded to a whole number of
/// the unit, a power of two, in which it takes exactly so many; smaller ones are
/// rounded to whole numbers as they are. What is below zero is rounded as what is
/// above it.
pub proof fn law_twenty_four_bits_are_kept(n: nat, d: nat, k: nat)
    requires
        d > 0,
    ensures
        n < 0x100_0000 * d ==> rounded_size(n, d) == half_even(n, d),
        0x80_0000 * (two_to(k) * d) <= n < 0x100_0000 * (two_to(k) * d) ==> rounded_size(n, d)
            == two_to(k) * half_even(n, two_to(k) * d),
        rounded(n as int, d) == rounded_size(n, d),
        rounded(-(n as int), d) == -(rounded_size(n, d) as int),
{
    if 0x80_0000 * (two_to(k) * d) <= n < 0x100_0000 * (two_to(k) * d) {
        lemma_scaled(n, d, k);
    }
    if n == 0 {
        lemma_whole(0, d);
        assert(0 * d == 0) by (nonlinear_arith);
    }
}

/// A number that cannot be held gives way to the nearest one that can.
pub proof fn law_what_is_held(x: int)
    ensures
        i64::MIN <= x <= i64::MAX ==> held(x) == x,
        x > i64::MAX ==> held(x) == i64::MAX,
        x < i64::MIN ==> held(x) == i64::MIN,
{
}

} // verus!
