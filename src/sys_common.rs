//! Numeric helpers shared by the clock readers.
use vstd::arithmetic::div_mod::{lemma_fundamental_div_mod_converse, lemma_div_is_ordered};
use vstd::arithmetic::power2::{lemma2_to64, lemma_pow2_unfold, pow2};
use vstd::prelude::*;

verus! {

/// Two to the power 64, the weight of the high word of a double-width value.
pub open spec fn word() -> int {
    0x1_0000_0000_0000_0000
}

/// The product of `a` and `b` as a high and a low 64-bit word, computed from the
/// 32-bit halves of the operands.
fn mul_wide(a: u64, b: u64) -> (r: (u64, u64))
    ensures
        r.0 * word() + r.1 == a * b,
{
    let a_hi = a / 0x1_0000_0000;
    let a_lo = a % 0x1_0000_0000;
    let b_hi = b / 0x1_0000_0000;
    let b_lo = b % 0x1_0000_0000;
    assert(a_lo * b_lo <= 0xffff_fffe_0000_0001 && a_hi * b_lo <= 0xffff_fffe_0000_0001 && a_lo
        * b_hi <= 0xffff_fffe_0000_0001 && a_hi * b_hi <= 0xffff_fffe_0000_0001) by (nonlinear_arith)
        requires
            a_hi < 0x1_0000_0000,
            a_lo < 0x1_0000_0000,
            b_hi < 0x1_0000_0000,
            b_lo < 0x1_0000_0000,
    ;
    let ll = a_lo * b_lo;
    let hl = a_hi * b_lo;
    let lh = a_lo * b_hi;
    let hh = a_hi * b_hi;
    let mid = lh + ll / 0x1_0000_0000 + hl % 0x1_0000_0000;
    let lo = (mid % 0x1_0000_0000) * 0x1_0000_0000 + ll % 0x1_0000_0000;
    let hi = hh + hl / 0x1_0000_0000 + mid / 0x1_0000_0000;
    assert(hi * word() + lo == a * b) by (nonlinear_arith)
        requires
            a == a_hi * 0x1_0000_0000 + a_lo,
            b == b_hi * 0x1_0000_0000 + b_lo,
            ll == a_lo * b_lo,
            hl == a_hi * b_lo,
            lh == a_lo * b_hi,
            hh == a_hi * b_hi,
            ll == (ll / 0x1_0000_0000) * 0x1_0000_0000 + ll % 0x1_0000_0000,
            hl == (hl / 0x1_0000_0000) * 0x1_0000_0000 + hl % 0x1_0000_0000,
            mid == (mid / 0x1_0000_0000) * 0x1_0000_0000 + mid % 0x1_0000_0000,
            mid == lh + ll / 0x1_0000_0000 + hl % 0x1_0000_0000,
            lo == (mid % 0x1_0000_0000) * 0x1_0000_0000 + ll % 0x1_0000_0000,
            hi == hh + hl / 0x1_0000_0000 + mid / 0x1_0000_0000,
            word() == 0x1_0000_0000 * 0x1_0000_0000,
    ;
    (hi, lo)
}

/// Computes `value * numer / denom`, rounded toward zero, without overflowing in
/// between: the product is formed as two words and divided one bit at a time.
pub fn mul_div_u64(value: u64, numer: u64, denom: u64) -> (r: u64)
    requires
        denom > 0,
        value * numer / (denom as int) <= u64::MAX,
    ensures
        r == value * numer / (denom as int),
{
    let ghost p: int = value * numer;
    let (hi, lo) = mul_wide(value, numer);
    proof {
        // The quotient fits in one word, so the high word is below the divisor.
        if hi >= denom {
            assert(p >= denom * word()) by (nonlinear_arith)
                requires
                    p == hi * word() + lo,
                    hi >= denom,
                    lo >= 0,
            ;
            lemma_div_is_ordered(denom * word(), p, denom as int);
            assert((denom * word()) / (denom as int) == word()) by (nonlinear_arith)
                requires
                    denom > 0,
            ;
        }
        lemma2_to64();
        assert(p >= 0) by (nonlinear_arith)
            requires
                p == value * numer,
        ;
    }
    let mut q: u64 = 0;
    let mut rem: u64 = hi;
    let mut rest: u64 = lo;
    let mut i: u64 = 0;
    while i < 64
        invariant
            denom > 0,
            p / (denom as int) <= u64::MAX,
            p >= 0,
            i <= 64,
            rem < denom,
            p * pow2(i as nat) == (q * denom + rem) * word() + rest,
            pow2(64) == word(),
        decreases 64 - i,
    {
        let ghost x: int = q * denom + rem;
        let bit: u64 = if rest >= 0x8000_0000_0000_0000 {
            1
        } else {
            0
        };
        let ghost old_rest = rest;
        rest = if bit == 1 {
            (rest - 0x8000_0000_0000_0000) * 2
        } else {
            rest * 2
        };
        assert(2 * old_rest == bit * word() + rest);
        proof {
            lemma_pow2_unfold((i + 1) as nat);
            if i + 1 < 64 {
                vstd::arithmetic::power2::lemma_pow2_strictly_increases((i + 1) as nat, 64);
            }
        }
        let ghost nx: int = 2 * x + bit;
        assert(p * pow2((i + 1) as nat) == nx * word() + rest) by (nonlinear_arith)
            requires
                p * pow2(i as nat) == x * word() + old_rest,
                pow2((i + 1) as nat) == 2 * pow2(i as nat),
                2 * old_rest == bit * word() + rest,
                nx == 2 * x + bit,
        ;
        assert(nx <= p) by (nonlinear_arith)
            requires
                p * pow2((i + 1) as nat) == nx * word() + rest,
                pow2((i + 1) as nat) <= word(),
                rest >= 0,
                p >= 0,
        ;
        let ghost old_rem: int = rem as int;
        let gap = denom - rem;
        let c: u64 = if rem + bit >= gap {
            1
        } else {
            0
        };
        rem = if c == 1 {
            rem + bit - gap
        } else {
            2 * rem + bit
        };
        let ghost nq: int = 2 * q + c;
        assert(nx == nq * denom + rem) by {
            assert(x == q * denom + old_rem);
            if c == 1 {
                assert(nq * denom == 2 * (q * denom) + denom) by (nonlinear_arith)
                    requires
                        nq == 2 * q + 1,
                ;
            } else {
                assert(nq * denom == 2 * (q * denom)) by (nonlinear_arith)
                    requires
                        nq == 2 * q,
                ;
            }
        }
        proof {
            lemma_div_is_ordered(nq * denom, p, denom as int);
            vstd::arithmetic::div_mod::lemma_div_multiples_vanish(nq, denom as int);
        }
        q = 2 * q + c;
        i = i + 1;
    }
    proof {
        let x = q * denom + rem;
        assert(x == p) by (nonlinear_arith)
            requires
                p * word() == x * word() + rest,
                0 <= rest < word(),
        ;
        lemma_fundamental_div_mod_converse(p, denom as int, q as int, rem as int);
    }
    q
}

} // verus!
