//! Verified integer arithmetic helpers: rounded scaling and fractions.
//!
//! Geometry scaling rounds half away from zero; fractions are reduced with a
//! greatest common divisor over magnitudes.

use vstd::prelude::*;

verus! {

/// `a / b` rounded half away from zero, for positive `b`.
pub open spec fn round_div(a: int, b: int) -> int {
    if a >= 0 {
        (2 * a + b) / (2 * b)
    } else {
        -((2 * (-a) + b) / (2 * b))
    }
}

/// `a / b` truncated toward zero, for positive `b`.
pub open spec fn trunc_div(a: int, b: int) -> int {
    if a >= 0 {
        a / b
    } else {
        -((-a) / b)
    }
}

/// The greatest common divisor of two natural numbers.
pub open spec fn gcd_nat(a: nat, b: nat) -> nat
    decreases b,
{
    if b == 0 {
        a
    } else {
        gcd_nat(b, a % b)
    }
}

/// `v * num / den` rounded half away from zero.
pub fn mul_div_round(v: i64, num: i64, den: i64) -> (r: i64)
    requires
        den > 0,
        -0x4000_0000_0000_0000 <= v * num <= 0x4000_0000_0000_0000,
        i64::MIN <= round_div(v * num, den as int) <= i64::MAX,
    ensures
        r as int == round_div(v as int * num as int, den as int),
{
    let neg = (v < 0) != (num < 0) && v != 0 && num != 0;
    proof {
        let vi = v as int;
        let ni = num as int;
        assert((((vi < 0) != (ni < 0)) && vi != 0 && ni != 0) <==> vi * ni < 0)
            by (nonlinear_arith);
    }
    let va: u64 = if v >= 0 {
        v as u64
    } else {
        (-(v as i128)) as u64
    };
    let na: u64 = if num >= 0 {
        num as u64
    } else {
        (-(num as i128)) as u64
    };
    proof {
        let vi = v as int;
        let ni = num as int;
        assert((if vi >= 0 {
            vi
        } else {
            -vi
        }) * (if ni >= 0 {
            ni
        } else {
            -ni
        }) == (if vi * ni >= 0 {
            vi * ni
        } else {
            -(vi * ni)
        })) by (nonlinear_arith);
    }
    let prod: u128 = (va as u128) * (na as u128);
    assert(prod == (if v * num >= 0 {
        v * num
    } else {
        -(v * num)
    }));
    let d: u128 = den as u128;
    let q: u128 = (2 * prod + d) / (2 * d);
    if neg {
        assert(v * num < 0);
        assert(q == (2 * (-(v * num)) + den) / (2 * den));
        -(q as i128) as i64
    } else {
        assert(v * num >= 0);
        q as i64
    }
}

/// Half of `x`, truncated toward zero.
pub fn half_trunc(x: i64) -> (r: i64)
    ensures
        r as int == trunc_div(x as int, 2),
{
    if x >= 0 {
        (x as u64 / 2) as i64
    } else {
        let mag: u64 = (-(x as i128)) as u64;
        -((mag / 2) as i64)
    }
}

/// The greatest common divisor of the magnitudes of `a` and `b`.
///
/// The result is never negative; `gcd(0, 0)` is 0.
pub fn gcd(a: i32, b: i32) -> (r: i32)
    requires
        gcd_nat((if a >= 0 {
            a as int
        } else {
            -(a as int)
        }) as nat, (if b >= 0 {
            b as int
        } else {
            -(b as int)
        }) as nat) <= i32::MAX,
    ensures
        r >= 0,
        r as nat == gcd_nat((if a >= 0 {
            a as int
        } else {
            -(a as int)
        }) as nat, (if b >= 0 {
            b as int
        } else {
            -(b as int)
        }) as nat),
{
    let mut x: u64 = if a >= 0 {
        a as u64
    } else {
        (-(a as i64)) as u64
    };
    let mut y: u64 = if b >= 0 {
        b as u64
    } else {
        (-(b as i64)) as u64
    };
    while y != 0
        invariant
            gcd_nat(x as nat, y as nat) == gcd_nat((if a >= 0 {
                a as int
            } else {
                -(a as int)
            }) as nat, (if b >= 0 {
                b as int
            } else {
                -(b as int)
            }) as nat),
        decreases y,
    {
        let t = x % y;
        x = y;
        y = t;
    }
    assert(gcd_nat(x as nat, 0) == x as nat);
    x as i32
}

/// The product of two values in u32 range fits in a u64.
pub proof fn lemma_u32_mul_fits(a: int, b: int)
    requires
        0 <= a < 0x1_0000_0000,
        0 <= b < 0x1_0000_0000,
    ensures
        0 <= a * b <= 0xffff_fffe_0000_0001,
{
    assert(0 <= a * b <= 0xffff_fffe_0000_0001) by (nonlinear_arith)
        requires
            0 <= a <= 0xffff_ffff,
            0 <= b <= 0xffff_ffff,
    ;
}

/// Floor division stays below `s` whenever the dividend is below `s * t`.
pub proof fn lemma_div_below(x: int, t: int, s: int)
    requires
        t > 0,
        s >= 0,
        0 <= x,
        x < s * t,
    ensures
        x / t < s,
{
    vstd::arithmetic::div_mod::lemma_fundamental_div_mod(x, t);
    vstd::arithmetic::div_mod::lemma_mod_bound(x, t);
    vstd::arithmetic::div_mod::lemma_div_pos_is_pos(x, t);
    if x / t >= s {
        vstd::arithmetic::mul::lemma_mul_inequality(s, x / t, t);
        assert(s * t <= (x / t) * t);
        assert(x == t * (x / t) + x % t);
        vstd::arithmetic::mul::lemma_mul_is_commutative(t, x / t);
        assert(x >= s * t);
    }
}

/// Rounded division of a nonnegative value by a positive one is nonnegative.
pub proof fn lemma_round_div_nonneg(a: int, b: int)
    requires
        a >= 0,
        b > 0,
    ensures
        round_div(a, b) >= 0,
{
    vstd::arithmetic::div_mod::lemma_div_pos_is_pos(2 * a + b, 2 * b);
}

/// Scaling down by a ratio at most one cannot grow a nonnegative value.
pub proof fn lemma_round_div_scale_le(a: int, c: int, b: int)
    requires
        a >= 0,
        b > 0,
        0 <= c <= b,
    ensures
        round_div(a * c, b) <= a,
{
    assert(a * c >= 0) by (nonlinear_arith)
        requires
            a >= 0,
            c >= 0,
    ;
    assert(2 * (a * c) + b <= 2 * (a * b) + b) by (nonlinear_arith)
        requires
            a >= 0,
            c <= b,
    ;
    vstd::arithmetic::div_mod::lemma_div_is_ordered(2 * (a * c) + b, 2 * (a * b) + b, 2 * b);
    assert(2 * (a * b) + b == a * (2 * b) + b) by (nonlinear_arith);
    vstd::arithmetic::div_mod::lemma_div_multiples_vanish_fancy(a, b, 2 * b);
    assert((a * (2 * b) + b) / (2 * b) == a);
}

/// Rounded division recovers an exact multiple.
pub proof fn lemma_round_div_exact(k: int, b: int)
    requires
        k >= 0,
        b > 0,
    ensures
        round_div(k * b, b) == k,
{
    assert(k * b >= 0) by (nonlinear_arith)
        requires
            k >= 0,
            b > 0,
    ;
    assert(2 * (k * b) + b == k * (2 * b) + b) by (nonlinear_arith);
    vstd::arithmetic::div_mod::lemma_div_multiples_vanish_fancy(k, b, 2 * b);
}

/// Shrink `(w, h)` to fit inside `(max_w, max_h)` while keeping the aspect
/// ratio: the smaller of the two axis ratios scales both sides, rounding
/// half away from zero; dimensions already inside the bounds are returned
/// unchanged.
pub fn fit_dims(w: i32, h: i32, max_w: i32, max_h: i32) -> (r: (i32, i32))
    requires
        w > 0,
        h > 0,
        max_w >= 0,
        max_h >= 0,
    ensures
        max_w >= w && max_h >= h ==> r == (w, h),
        !(max_w >= w && max_h >= h) ==> 0 <= r.0 <= max_w && 0 <= r.1 <= max_h,
        !(max_w >= w && max_h >= h) && max_w as int * h as int <= max_h as int * w as int ==> r.0
            == max_w && r.1 as int == round_div(h as int * max_w as int, w as int),
        !(max_w >= w && max_h >= h) && max_w as int * h as int > max_h as int * w as int ==> r.1
            == max_h && r.0 as int == round_div(w as int * max_h as int, h as int),
{
    if max_w >= w && max_h >= h {
        return (w, h);
    }
    proof {
        lemma_i32_pair_in_range(max_w as int, h as int);
        lemma_i32_pair_in_range(max_h as int, w as int);
    }
    let cross_w: i64 = (max_w as i64) * (h as i64);
    let cross_h: i64 = (max_h as i64) * (w as i64);
    if cross_w <= cross_h {
        // The width ratio `max_w / w` is the binding one, so it is at most 1.
        proof {
            if max_w > w {
                assert(max_h < h);
                assert(max_w as int * h as int > max_h as int * w as int) by (nonlinear_arith)
                    requires
                        max_w as int > w as int,
                        (max_h as int) < (h as int),
                        w > 0,
                        h > 0,
                        max_h >= 0,
                ;
            }
            assert(max_w <= w);
            lemma_i32_pair_in_range(h as int, max_w as int);
            lemma_round_div_nonneg(h as int * max_w as int, w as int);
            lemma_round_div_scale_le(h as int, max_w as int, w as int);
            assert(h as int * max_w as int <= max_h as int * w as int) by (nonlinear_arith)
                requires
                    max_w as int * h as int <= max_h as int * w as int,
            ;
            lemma_round_div_is_ordered(
                h as int * max_w as int,
                max_h as int * w as int,
                w as int,
            );
            lemma_round_div_exact(max_h as int, w as int);
            assert(round_div(h as int * max_w as int, w as int) <= max_h);
        }
        let nh = mul_div_round(h as i64, max_w as i64, w as i64);
        (max_w, nh as i32)
    } else {
        proof {
            if max_h > h {
                assert(max_w < w);
                assert(max_h as int * w as int > max_w as int * h as int) by (nonlinear_arith)
                    requires
                        max_h as int > h as int,
                        (max_w as int) < (w as int),
                        w > 0,
                        h > 0,
                        max_w >= 0,
                ;
            }
            assert(max_h <= h);
            lemma_i32_pair_in_range(w as int, max_h as int);
            lemma_round_div_nonneg(w as int * max_h as int, h as int);
            lemma_round_div_scale_le(w as int, max_h as int, h as int);
            assert(w as int * max_h as int <= max_w as int * h as int) by (nonlinear_arith)
                requires
                    max_w as int * h as int > max_h as int * w as int,
            ;
            lemma_round_div_is_ordered(
                w as int * max_h as int,
                max_w as int * h as int,
                h as int,
            );
            lemma_round_div_exact(max_w as int, h as int);
            assert(round_div(w as int * max_h as int, h as int) <= max_w);
        }
        let nw = mul_div_round(w as i64, max_h as i64, h as i64);
        (nw as i32, max_h)
    }
}

/// Rounded division by a shared positive divisor preserves order of
/// nonnegative dividends.
pub proof fn lemma_round_div_is_ordered(a: int, b: int, d: int)
    requires
        0 <= a <= b,
        d > 0,
    ensures
        round_div(a, d) <= round_div(b, d),
{
    vstd::arithmetic::div_mod::lemma_div_is_ordered(2 * a + d, 2 * b + d, 2 * d);
}

/// Two values in i32 range have a product inside the rounded-scaling bound.
proof fn lemma_i32_pair_in_range(a: int, b: int)
    requires
        -0x8000_0000 <= a <= 0x7fff_ffff,
        -0x8000_0000 <= b <= 0x7fff_ffff,
    ensures
        -0x4000_0000_0000_0000 <= a * b <= 0x4000_0000_0000_0000,
{
    assert(-0x4000_0000_0000_0000 <= a * b <= 0x4000_0000_0000_0000) by (nonlinear_arith)
        requires
            -0x8000_0000 <= a <= 0x7fff_ffff,
            -0x8000_0000 <= b <= 0x7fff_ffff,
    ;
}

/// The gcd of magnitudes divides both numbers evenly; stated over naturals.
pub proof fn lemma_gcd_divides(a: nat, b: nat)
    ensures
        gcd_nat(a, b) > 0 ==> a % gcd_nat(a, b) == 0 && b % gcd_nat(a, b) == 0,
        gcd_nat(a, b) == 0 ==> a == 0 && b == 0,
    decreases b,
{
    if b == 0 {
        if a > 0 {
            vstd::arithmetic::div_mod::lemma_mod_self_0(a as int);
        }
    } else {
        lemma_gcd_divides(b, a % b);
        let g = gcd_nat(b, a % b);
        if g > 0 {
            let ai = a as int;
            let bi = b as int;
            let gi = g as int;
            vstd::arithmetic::div_mod::lemma_fundamental_div_mod(ai, bi);
            assert(ai == bi * (ai / bi) + (ai % bi));
            lemma_mult_mod_zero(bi, ai / bi, gi);
            vstd::arithmetic::div_mod::lemma_add_mod_noop(bi * (ai / bi), ai % bi, gi);
            assert((bi * (ai / bi)) % gi == 0);
            assert((ai % bi) % gi == 0);
            assert(ai % gi == (0int + 0int) % gi);
            vstd::arithmetic::div_mod::lemma_small_mod(0nat, g);
        }
    }
}

/// If `g` divides `b`, then `g` divides any multiple of `b`.
proof fn lemma_mult_mod_zero(b: int, k: int, g: int)
    requires
        g > 0,
        b % g == 0,
    ensures
        (b * k) % g == 0,
{
    vstd::arithmetic::div_mod::lemma_fundamental_div_mod(b, g);
    assert(b == g * (b / g));
    assert(b * k == g * ((b / g) * k)) by {
        vstd::arithmetic::mul::lemma_mul_is_associative(g, b / g, k);
    }
    vstd::arithmetic::div_mod::lemma_mod_multiples_basic((b / g) * k, g);
}

} // verus!

verus! {

/// The gcd of two naturals, not both zero, is at most the larger.
pub proof fn lemma_gcd_le(a: nat, b: nat)
    ensures
        !(a == 0 && b == 0) ==> gcd_nat(a, b) <= (if a >= b {
            a
        } else {
            b
        }),
    decreases b,
{
    if b == 0 {
    } else {
        vstd::arithmetic::div_mod::lemma_mod_bound(a as int, b as int);
        lemma_gcd_le(b, a % b);
    }
}

/// The gcd of magnitudes within i32 range stays within i32 range.
pub proof fn lemma_gcd_magnitude_bound(a: int, b: int)
    requires
        -0x7fff_ffff <= a <= 0x7fff_ffff,
        -0x7fff_ffff <= b <= 0x7fff_ffff,
    ensures
        gcd_nat((if a >= 0 {
            a
        } else {
            -a
        }) as nat, (if b >= 0 {
            b
        } else {
            -b
        }) as nat) <= 0x7fff_ffff,
{
    let ma = (if a >= 0 {
        a
    } else {
        -a
    }) as nat;
    let mb = (if b >= 0 {
        b
    } else {
        -b
    }) as nat;
    lemma_gcd_le(ma, mb);
    if ma == 0 && mb == 0 {
        assert(gcd_nat(ma, mb) == 0);
    }
}

/// A value whose magnitude the divisor divides is itself divisible.
pub proof fn lemma_mod_of_magnitude(x: int, g: int)
    requires
        g > 0,
        (if x >= 0 {
            x
        } else {
            -x
        }) % g == 0,
    ensures
        x % g == 0,
{
    if x >= 0 {
    } else {
        let m = -x;
        vstd::arithmetic::div_mod::lemma_fundamental_div_mod(m, g);
        assert(m == g * (m / g));
        assert(x == g * (-(m / g))) by (nonlinear_arith)
            requires
                m == g * (m / g),
                x == -m,
        ;
        vstd::arithmetic::div_mod::lemma_mod_multiples_basic(-(m / g), g);
        vstd::arithmetic::mul::lemma_mul_is_commutative(g, -(m / g));
    }
}

/// Divide exactly: the divisor is positive and divides the value evenly.
pub fn exact_div(x: i32, d: i32) -> (r: i32)
    requires
        d > 0,
        x > i32::MIN,
        x as int % (d as int) == 0,
    ensures
        r as int * (d as int) == x as int,
{
    proof {
        vstd::arithmetic::div_mod::lemma_fundamental_div_mod(x as int, d as int);
    }
    if x >= 0 {
        let q: u64 = (x as u64) / (d as u64);
        proof {
            assert(q as int == x as int / d as int);
            assert(x as int == d as int * (x as int / d as int));
            vstd::arithmetic::mul::lemma_mul_is_commutative(d as int, x as int / d as int);
            assert(q * d <= x) by (nonlinear_arith)
                requires
                    q as int * (d as int) == x as int,
                    d > 0,
                    x >= 0,
            ;
        }
        q as i32
    } else {
        let mag: u64 = (-(x as i64)) as u64;
        let ghost k = x as int / d as int;
        proof {
            assert(x as int == d as int * k);
            assert(mag as int == d as int * (-k)) by (nonlinear_arith)
                requires
                    x as int == d as int * k,
                    mag as int == -(x as int),
            ;
            vstd::arithmetic::div_mod::lemma_div_multiples_vanish(-k, d as int);
            assert(mag as int / (d as int) == -k);
            vstd::arithmetic::div_mod::lemma_div_pos_is_pos(mag as int, d as int);
            assert(-k <= mag);
        }
        let q: u64 = mag / (d as u64);
        proof {
            assert(q as int == -k);
            vstd::arithmetic::mul::lemma_mul_is_commutative(d as int, k);
        }
        (-(q as i64)) as i32
    }
}

} // verus!
