use vstd::prelude::*;

verus! {

/// Ten to the power `e`.
pub open spec fn pow10(e: nat) -> nat
    decreases e,
{
    if e == 0 {
        1
    } else {
        10 * pow10((e - 1) as nat)
    }
}

/// `a / d` rounded to the nearest integer, ties to the even one, for
/// `a >= 0` and `d > 0`.
pub open spec fn round_half_even_nat(a: nat, d: nat) -> int {
    let q = a as int / d as int;
    let r = a as int % d as int;
    if 2 * r < d {
        q
    } else if 2 * r > d {
        q + 1
    } else if q % 2 == 0 {
        q
    } else {
        q + 1
    }
}

/// `n / d` rounded to the nearest integer, ties to the even one, for `d > 0`.
pub open spec fn round_half_even(n: int, d: nat) -> int {
    if n >= 0 {
        round_half_even_nat(n as nat, d)
    } else {
        -round_half_even_nat((-n) as nat, d)
    }
}

/// `n * 10^shift`, rounded half to even when `shift` is negative.
pub open spec fn rescale(n: int, shift: int) -> int {
    if shift >= 0 {
        n * pow10(shift as nat)
    } else {
        round_half_even(n, pow10((-shift) as nat))
    }
}

pub proof fn lemma_pow10_positive(e: nat)
    ensures
        pow10(e) >= 1,
    decreases e,
{
    if e > 0 {
        lemma_pow10_positive((e - 1) as nat);
    }
}

pub proof fn lemma_pow10_monotone(a: nat, b: nat)
    requires
        a <= b,
    ensures
        pow10(a) <= pow10(b),
    decreases b,
{
    if a < b {
        lemma_pow10_monotone(a, (b - 1) as nat);
        lemma_pow10_positive((b - 1) as nat);
    }
}

/// Ten to the power `e`, for exponents whose power fits in 128 bits.
pub fn pow10_u128(e: u32) -> (r: u128)
    requires
        e <= 38,
    ensures
        r == pow10(e as nat),
{
    let mut r: u128 = 1;
    let mut i: u32 = 0;
    proof {
        reveal_with_fuel(pow10, 39);
        assert(pow10(38) == 100000000000000000000000000000000000000nat);
    }
    while i < e
        invariant
            i <= e <= 38,
            r == pow10(i as nat),
            pow10(38) == 100000000000000000000000000000000000000nat,
        decreases e - i,
    {
        proof {
            lemma_pow10_monotone((i + 1) as nat, 38);
            assert(pow10((i + 1) as nat) == 10 * pow10(i as nat));
        }
        r = r * 10;
        i = i + 1;
    }
    r
}

/// `a / d` rounded half to even, on unsigned integers.
pub fn div_round_half_even(a: u128, d: u128) -> (r: u128)
    requires
        d > 0,
    ensures
        r == round_half_even_nat(a as nat, d as nat),
{
    let q = a / d;
    let rem = a % d;
    proof {
        assert(q * d + rem == a) by (nonlinear_arith)
            requires q == a / d, rem == a % d, d > 0;
        assert(q <= a) by (nonlinear_arith)
            requires q == a / d, d > 0;
    }
    let up: bool = if rem > d - rem {
        true
    } else if rem < d - rem {
        false
    } else {
        q % 2 == 1
    };
    if up {
        proof {
            if q == u128::MAX {
                assert(q * d + rem == a);
                assert(d >= 1);
                assert(q * d >= q) by (nonlinear_arith)
                    requires d >= 1, q >= 0;
                assert(a == q && d == 1 && rem == 0) by (nonlinear_arith)
                    requires q * d + rem == a, q == u128::MAX, a <= u128::MAX, d >= 1, rem >= 0;
            }
        }
        q + 1
    } else {
        q
    }
}


/// The signed integer with magnitude `mag`, negated when `negative`.
pub open spec fn signed(mag: nat, negative: bool) -> int {
    if negative {
        -(mag as int)
    } else {
        mag as int
    }
}

/// Whether `n` fits a signed 64-bit amount (the symmetric range).
pub open spec fn fits_i64(n: int) -> bool {
    -(i64::MAX as int) <= n <= i64::MAX as int
}

/// `signed(mag, negative) * 10^shift`, rounded half to even, when the result
/// fits a signed 64-bit amount; `None` otherwise.
pub fn rescale_to_i64(mag: u128, negative: bool, shift: i32) -> (r: Option<i64>)
    requires
        -38 <= shift <= 38,
    ensures
        r.is_some() <==> fits_i64(rescale(signed(mag as nat, negative), shift as int)),
        r.is_some() ==> r.unwrap() as int == rescale(signed(mag as nat, negative), shift as int),
{
    let n = Ghost(signed(mag as nat, negative));
    let m: u128;
    if shift >= 0 {
        let p = pow10_u128(shift as u32);
        proof {
            lemma_pow10_positive(shift as nat);
            assert(n@ * p == signed((mag * p) as nat, negative)) by (nonlinear_arith)
                requires n@ == signed(mag as nat, negative), p >= 1;
        }
        match mag.checked_mul(p) {
            Some(v) => {
                m = v;
            },
            None => {
                proof {
                    assert(mag * p > i64::MAX);
                }
                return None;
            },
        }
    } else {
        let d = pow10_u128((-shift) as u32);
        proof {
            lemma_pow10_positive((-shift) as nat);
        }
        m = div_round_half_even(mag, d);
        proof {
            if negative && mag == 0 {
                assert(round_half_even_nat(0, d as nat) == 0);
            }
        }
    }
    if m > i64::MAX as u128 {
        None
    } else if negative {
        Some(-(m as i64))
    } else {
        Some(m as i64)
    }
}

} // verus!
