//! The part of a token's life that is used: seven tenths, reckoned as IEEE doubles do.
//!
//! A double keeps 53 binary digits. The nearest double to 0.7 is `SEVEN_TENTHS / 2^53`.
use vstd::prelude::*;

verus! {

/// The numerator of the nearest double to 0.7, over 2^53.
pub const SEVEN_TENTHS: u64 = 0x16_6666_6666_6666;

/// 2^53: below it a double holds every whole number.
pub const DOUBLE_LIMIT: u64 = 0x20_0000_0000_0000;

/// The distance of neighbouring doubles at `n`, where that is more than one; else one.
pub open spec fn spacing(n: nat) -> nat
    decreases n,
{
    if n < 0x20_0000_0000_0000 {
        1
    } else {
        2 * spacing(n / 2)
    }
}

/// The double nearest to a natural number, and of two the one with the even last digit.
pub open spec fn nearest_double(n: nat) -> nat {
    let u = spacing(n);
    let q = n / u;
    let r = n % u;
    if 2 * r > u || (2 * r == u && q % 2 == 1) {
        (q + 1) * u
    } else {
        q * u
    }
}

/// Seven tenths of a natural number: the number as a double, times the double 0.7, the product
/// again a double, its fraction cut off.
pub open spec fn seven_tenths(n: nat) -> nat {
    nearest_double(nearest_double(n) * 0x16_6666_6666_6666) / 0x20_0000_0000_0000
}

/// The used part of a lifetime in seconds.
pub open spec fn used_lifetime(expires_in: int) -> int {
    if expires_in < 0 {
        -(seven_tenths((-expires_in) as nat) as int)
    } else {
        seven_tenths(expires_in as nat) as int
    }
}

proof fn lemma_spacing(n: nat)
    ensures
        spacing(n) >= 1,
        spacing(n) == 1 || spacing(n) * 0x10_0000_0000_0000 <= n,
    decreases n,
{
    if n >= 0x20_0000_0000_0000 {
        lemma_spacing(n / 2);
    }
}

proof fn lemma_nearest_double_bound(n: nat)
    ensures
        nearest_double(n) <= n + spacing(n),
{
    lemma_spacing(n);
    let u = spacing(n);
    let q = n / u;
    let r = n % u;
    vstd::arithmetic::div_mod::lemma_fundamental_div_mod(n as int, u as int);
    assert((q + 1) * u == u * q + u) by (nonlinear_arith);
    assert(q * u == u * q) by (nonlinear_arith);
}

proof fn lemma_seven_tenths_bound(n: nat)
    requires
        n <= 0x8000_0000_0000_0000,
    ensures
        seven_tenths(n) < 0x8000_0000_0000_0000,
        nearest_double(n) <= 0x8000_0000_0000_0800,
{
    lemma_spacing(n);
    lemma_nearest_double_bound(n);
    let f = nearest_double(n);
    assert(spacing(n) <= 0x800);
    let p = f * 0x16_6666_6666_6666;
    lemma_spacing(p);
    lemma_nearest_double_bound(p);
}

/// The used part of a lifetime stays within 64 bits.
pub proof fn law_used_lifetime_fits(expires_in: i64)
    ensures
        -0x8000_0000_0000_0000 < used_lifetime(expires_in as int) < 0x8000_0000_0000_0000,
{
    lemma_seven_tenths_bound((if expires_in < 0 {
        -expires_in
    } else {
        expires_in as int
    }) as nat);
}

fn round_to_double(n: u128) -> (r: u128)
    requires
        n < 0x100_0000_0000_0000_0000_0000_0000_0000,
    ensures
        r == nearest_double(n as nat),
{
    let mut u: u128 = 1;
    let mut q: u128 = n;
    while q >= 0x20_0000_0000_0000
        invariant
            n < 0x100_0000_0000_0000_0000_0000_0000_0000,
            u >= 1,
            q == n / u,
            u * q <= n,
            spacing(n as nat) == u * spacing(q as nat),
        decreases q,
    {
        let ghost u0 = u;
        let ghost q0 = q;
        proof {
            vstd::arithmetic::div_mod::lemma_div_denominator(n as int, u as int, 2);
            assert(u <= u * q) by (nonlinear_arith)
                requires
                    q >= 1,
                    u >= 1,
            ;
            assert((u * 2) * (q / 2) <= u * q) by (nonlinear_arith)
                requires
                    2 * (q / 2) <= q,
                    u >= 1,
            ;
            assert(u * (2 * spacing((q / 2) as nat)) == (u * 2) * spacing((q / 2) as nat))
                by (nonlinear_arith);
        }
        q = q / 2;
        u = u * 2;
    }
    assert(u * spacing(q as nat) == u) by (nonlinear_arith)
        requires
            spacing(q as nat) == 1,
    ;
    proof {
        vstd::arithmetic::div_mod::lemma_fundamental_div_mod(n as int, u as int);
        assert(q * u == u * q) by (nonlinear_arith);
        assert((q + 1) * u == u * q + u) by (nonlinear_arith);
    }
    let r: u128 = n - q * u;
    if 2 * r > u || (2 * r == u && q % 2 == 1) {
        (q + 1) * u
    } else {
        q * u
    }
}

/// The used part of a lifetime in seconds.
pub fn used_seconds(expires_in: i64) -> (r: i64)
    ensures
        r == used_lifetime(expires_in as int),
{
    let n: u128 = if expires_in < 0 {
        (-(expires_in as i128)) as u128
    } else {
        expires_in as u128
    };
    proof {
        lemma_seven_tenths_bound(n as nat);
    }
    let product: u128 = round_to_double(n) * (SEVEN_TENTHS as u128);
    let part: u128 = round_to_double(product) / (DOUBLE_LIMIT as u128);
    if expires_in < 0 {
        -(part as i64)
    } else {
        part as i64
    }
}

/// Of a lifetime up to 2^32 seconds, seven tenths are used, down to the second: the used part is
/// the whole seconds of seven tenths, or one less. A negative lifetime mirrors a positive one.
pub proof fn law_seven_tenths_are_used(expires_in: int)
    requires
        0 <= expires_in <= 0x1_0000_0000,
    ensures
        7 * expires_in - 10 <= 10 * used_lifetime(expires_in) <= 7 * expires_in,
        used_lifetime(-expires_in) == -used_lifetime(expires_in),
{
    let n = expires_in as nat;
    assert(spacing(n) == 1);
    assert(nearest_double(n) == n) by {
        assert(n / 1 == n && n % 1 == 0);
    }
    let p: nat = n * 0x16_6666_6666_6666;
    let u = spacing(p);
    lemma_spacing(p);
    let q = p / u;
    let r = p % u;
    vstd::arithmetic::div_mod::lemma_fundamental_div_mod(p as int, u as int);
    assert((q + 1) * u == u * q + u) by (nonlinear_arith);
    assert(q * u == u * q) by (nonlinear_arith);
    assert(p - u <= nearest_double(p) <= p + u);
    assert(u == 1 || u * 0x10_0000_0000_0000 <= p);
    assert(p <= 0x1_0000_0000 * 0x16_6666_6666_6666);
    assert(u <= 0x1_6666_6667);
}

proof fn lemma_spacing_is_a_power(n: nat, k: nat)
    requires
        vstd::arithmetic::power2::pow2(k) * 0x10_0000_0000_0000 <= n,
        n < vstd::arithmetic::power2::pow2(k) * 0x20_0000_0000_0000,
    ensures
        spacing(n) == vstd::arithmetic::power2::pow2(k),
    decreases k,
{
    if k == 0 {
        vstd::arithmetic::power2::lemma2_to64();
    } else {
        let below = (k - 1) as nat;
        vstd::arithmetic::power2::lemma_pow2_unfold(k);
        vstd::arithmetic::power2::lemma_pow2_pos(below);
        lemma_spacing_is_a_power(n / 2, below);
    }
}

/// A double is exact below 2^53. From there on, between 2^52 and 2^53 times a power of two, it is a
/// multiple of that power, at most half of the power away from the number, and of two that are
/// as near it is the one whose last binary digit is zero.
pub proof fn law_double_is_nearest(n: nat, k: nat)
    ensures
        n < 0x20_0000_0000_0000 ==> nearest_double(n) == n,
        ({
            let u: int = vstd::arithmetic::power2::pow2(k) as int;
            let away: int = nearest_double(n) - n;
            u * 0x10_0000_0000_0000 <= n < u * 0x20_0000_0000_0000 ==> {
                &&& nearest_double(n) as int % u == 0
                &&& -u <= 2 * away <= u
                &&& 2 * away == u || 2 * away == -u ==> nearest_double(n) as int % (2 * u) == 0
            }
        }),
{
    if n < 0x20_0000_0000_0000 {
        assert(spacing(n) == 1);
        assert(n / 1 == n && n % 1 == 0);
        assert(nearest_double(n) == n);
    }
    let u: int = vstd::arithmetic::power2::pow2(k) as int;
    vstd::arithmetic::power2::lemma_pow2_pos(k);
    if u * 0x10_0000_0000_0000 <= n < u * 0x20_0000_0000_0000 {
        lemma_spacing_is_a_power(n, k);
        let q: int = n as int / u;
        let r: int = n as int % u;
        vstd::arithmetic::div_mod::lemma_fundamental_div_mod(n as int, u);
        assert((q + 1) * u == u * q + u) by (nonlinear_arith);
        assert(q * u == u * q) by (nonlinear_arith);
        vstd::arithmetic::div_mod::lemma_mod_multiples_basic(q, u);
        vstd::arithmetic::div_mod::lemma_mod_multiples_basic(q + 1, u);
        let half: int = q / 2;
        if q % 2 == 1 {
            assert((half + 1) * (2 * u) == (q + 1) * u) by (nonlinear_arith)
                requires
                    q == 2 * half + 1,
            ;
            vstd::arithmetic::div_mod::lemma_mod_multiples_basic(half + 1, 2 * u);
        } else {
            assert(half * (2 * u) == q * u) by (nonlinear_arith)
                requires
                    q == 2 * half,
            ;
            vstd::arithmetic::div_mod::lemma_mod_multiples_basic(half, 2 * u);
        }
    }
}

proof fn lemma_cut(n: int, d: int, u: int)
    requires
        0 <= n <= 0x1_0000_0000,
        n % 10 != 0,
        0 <= u <= 0x1_6666_6667,
        n * 0x16_6666_6666_6666 - u <= d <= n * 0x16_6666_6666_6666 + u,
    ensures
        d / 0x20_0000_0000_0000 == 7 * n / 10,
{
    let tens: int = n / 10;
    let rest: int = n % 10;
    let whole: int = 7 * n / 10;
    assert(7 * n == 10 * (7 * tens) + 7 * rest);
    assert(10 * whole + 1 <= 7 * n <= 10 * whole + 9);
    assert(10 * (n * 0x16_6666_6666_6666) == 7 * n * 0x20_0000_0000_0000 - 4 * n);
    assert(whole * 0x20_0000_0000_0000 <= d < (whole + 1) * 0x20_0000_0000_0000);
}

/// A lifetime up to 2^32 seconds that is no multiple of ten seconds is used for the whole seconds of
/// its seven tenths.
pub proof fn law_broken_seconds_are_cut(expires_in: int)
    requires
        0 <= expires_in <= 0x1_0000_0000,
        expires_in % 10 != 0,
    ensures
        used_lifetime(expires_in) == 7 * expires_in / 10,
{
    let n = expires_in as nat;
    law_double_is_nearest(n, 0);
    let p: nat = n * 0x16_6666_6666_6666;
    let u = spacing(p);
    assert(u <= 0x1_6666_6667) by {
        lemma_spacing(p);
    }
    assert(p - u <= nearest_double(p) <= p + u) by {
        lemma_spacing(p);
        let q = p / u;
        vstd::arithmetic::div_mod::lemma_fundamental_div_mod(p as int, u as int);
        assert((q + 1) * u == u * q + u) by (nonlinear_arith);
        assert(q * u == u * q) by (nonlinear_arith);
    }
    lemma_cut(expires_in, nearest_double(p) as int, u as int);
}

/// Ten times `m` seconds, up to 2^31, are used for seven times `m` seconds, or for one less: 0.7 as
/// a double is a little less than seven tenths, and what the product loses, four times `m` in the
/// unit of that double, survives its rounding exactly where it exceeds the power of two below seven
/// times `m`.
pub proof fn law_when_a_second_is_lost(m: int, j: nat)
    requires
        0 < m <= 0x1000_0000,
        vstd::arithmetic::power2::pow2(j) < 7 * m < 2 * vstd::arithmetic::power2::pow2(j),
    ensures
        used_lifetime(10 * m) == (if 4 * m > vstd::arithmetic::power2::pow2(j) {
            7 * m - 1
        } else {
            7 * m
        }),
{
    let n = (10 * m) as nat;
    law_double_is_nearest(n, 0);
    let p: nat = n * 0x16_6666_6666_6666;
    assert(p == 7 * m * 0x20_0000_0000_0000 - 4 * m);
    vstd::arithmetic::power2::lemma_pow2_pos(j);
    vstd::arithmetic::power2::lemma_pow2_unfold(j + 1);
    vstd::arithmetic::power2::lemma2_to64();
    vstd::arithmetic::power2::lemma2_to64_rest();
    if j >= 32 {
        if j > 32 {
            vstd::arithmetic::power2::lemma_pow2_strictly_increases(32, j);
        }
        assert(false);
    }
    let u: int = vstd::arithmetic::power2::pow2(j + 1) as int;
    let c: int = vstd::arithmetic::power2::pow2((52 - j) as nat) as int;
    vstd::arithmetic::power2::lemma_pow2_adds(j + 1, (52 - j) as nat);
    vstd::arithmetic::power2::lemma_pow2_unfold((52 - j) as nat);
    assert(u * c == 0x20_0000_0000_0000);
    lemma_spacing_is_a_power(p, j + 1);
    let whole: int = 7 * m * c;
    assert(whole * u == 7 * m * 0x20_0000_0000_0000) by (nonlinear_arith)
        requires
            whole == 7 * m * c,
            u * c == 0x20_0000_0000_0000,
    ;
    let q: int = whole - 1;
    let r: int = u - 4 * m;
    assert(q * u == whole * u - u) by (nonlinear_arith)
        requires
            q == whole - 1,
    ;
    assert(p as int == q * u + r);
    vstd::arithmetic::div_mod::lemma_fundamental_div_mod_converse_mod(p as int, u, q, r);
    vstd::arithmetic::div_mod::lemma_fundamental_div_mod_converse_div(p as int, u, q, r);
    let half: int = vstd::arithmetic::power2::pow2((51 - j) as nat) as int;
    assert(whole == 2 * (7 * m * half)) by (nonlinear_arith)
        requires
            whole == 7 * m * c,
            c == 2 * half,
    ;
    assert(q % 2 == 1);
    assert(0 < u <= 0x20_0000_0000_0000);
}

} // verus!
