use vstd::prelude::*;
use vstd::arithmetic::power::pow;

verus! {

/// Whether an integer can be held in 64 signed bits.
pub open spec fn fits_i64(x: int) -> bool {
    i64::MIN <= x <= i64::MAX
}

pub open spec fn magnitude(x: int) -> int {
    if x < 0 {
        -x
    } else {
        x
    }
}

/// Division that rounds towards zero.
pub open spec fn truncated_div(l: int, r: int) -> int {
    if (l < 0) == (r < 0) {
        magnitude(l) / magnitude(r)
    } else {
        -(magnitude(l) / magnitude(r))
    }
}

/// The remainder of the division that rounds towards zero: it has the sign
/// of the dividend.
pub open spec fn truncated_rem(l: int, r: int) -> int {
    if l < 0 {
        -(magnitude(l) % magnitude(r))
    } else {
        magnitude(l) % magnitude(r)
    }
}

fn narrow(x: i128) -> (r: Option<i64>)
    ensures
        r == if fits_i64(x as int) {
            Some(x as i64)
        } else {
            None
        },
{
    if -0x8000_0000_0000_0000i128 <= x && x <= 0x7fff_ffff_ffff_ffffi128 {
        Some(x as i64)
    } else {
        None
    }
}

/// The sum, where it fits.
pub fn checked_sum(l: i64, r: i64) -> (res: Option<i64>)
    ensures
        res == if fits_i64(l + r) {
            Some((l + r) as i64)
        } else {
            None
        },
{
    narrow(l as i128 + r as i128)
}

/// The difference, where it fits.
pub fn checked_difference(l: i64, r: i64) -> (res: Option<i64>)
    ensures
        res == if fits_i64(l - r) {
            Some((l - r) as i64)
        } else {
            None
        },
{
    narrow(l as i128 - r as i128)
}

/// The product, where it fits.
pub fn checked_product(l: i64, r: i64) -> (res: Option<i64>)
    ensures
        res == if fits_i64(l * r) {
            Some((l * r) as i64)
        } else {
            None
        },
{
    assert(-0x4000_0000_0000_0000_0000_0000_0000_0000 <= l * r
        <= 0x4000_0000_0000_0000_0000_0000_0000_0000) by (nonlinear_arith)
        requires
            -0x8000_0000_0000_0000 <= l <= 0x8000_0000_0000_0000,
            -0x8000_0000_0000_0000 <= r <= 0x8000_0000_0000_0000,
    ;
    narrow((l as i128) * (r as i128))
}

fn magnitude_of(x: i64) -> (m: u64)
    ensures
        m == magnitude(x as int),
{
    if x == i64::MIN {
        0x8000_0000_0000_0000u64
    } else if x < 0 {
        (-x) as u64
    } else {
        x as u64
    }
}

/// The quotient rounded towards zero, where it fits.
pub fn checked_quotient(l: i64, r: i64) -> (res: Option<i64>)
    requires
        r != 0,
    ensures
        res == if fits_i64(truncated_div(l as int, r as int)) {
            Some(truncated_div(l as int, r as int) as i64)
        } else {
            None
        },
{
    let q: u64 = magnitude_of(l) / magnitude_of(r);
    if (l < 0) == (r < 0) {
        narrow(q as i128)
    } else {
        narrow(-(q as i128))
    }
}

/// The remainder of the division that rounds towards zero.
pub fn remainder(l: i64, r: i64) -> (res: i64)
    requires
        r != 0,
    ensures
        res == truncated_rem(l as int, r as int),
{
    let m: u64 = magnitude_of(l) % magnitude_of(r);
    if l < 0 {
        -(m as i64)
    } else {
        m as i64
    }
}

proof fn lemma_pow_stays_out_of_range(base: int, k: nat, n: nat)
    requires
        magnitude(base) >= 2,
        k <= n,
        !fits_i64(pow(base, k)),
    ensures
        !fits_i64(pow(base, n)),
    decreases n - k,
{
    if k < n {
        let p = pow(base, k);
        assert(pow(base, k + 1) == base * p) by {
            reveal(pow);
        }
        assert(!fits_i64(base * p)) by (nonlinear_arith)
            requires
                magnitude(base) >= 2,
                !fits_i64(p),
        ;
        lemma_pow_stays_out_of_range(base, k + 1, n);
    }
}

proof fn lemma_pow_of_unit(base: int, n: nat)
    requires
        -1 <= base <= 1,
    ensures
        pow(base, n) == if n == 0 {
            1int
        } else if base == 0 {
            0int
        } else if base == 1 || n % 2 == 0 {
            1int
        } else {
            -1int
        },
    decreases n,
{
    reveal(pow);
    if n > 0 {
        lemma_pow_of_unit(base, (n - 1) as nat);
        let rest = pow(base, (n - 1) as nat);
        if base == -1 {
            assert(base * rest == -rest) by (nonlinear_arith)
                requires
                    base == -1,
            ;
        }
    }
}

/// The power `base` to the `exponent`, where it fits.
pub fn checked_power(base: i64, exponent: i64) -> (res: Option<i64>)
    requires
        0 <= exponent,
    ensures
        res == if fits_i64(pow(base as int, exponent as nat)) {
            Some(pow(base as int, exponent as nat) as i64)
        } else {
            None
        },
{
    if -1 <= base && base <= 1 {
        proof {
            lemma_pow_of_unit(base as int, exponent as nat);
        }
        if exponent == 0 {
            Some(1)
        } else if base == 0 {
            Some(0)
        } else if base == 1 || exponent % 2 == 0 {
            Some(1)
        } else {
            Some(-1)
        }
    } else {
        let mut acc: i64 = 1;
        let mut i: i64 = 0;
        proof {
            reveal(pow);
        }
        while i < exponent
            invariant
                0 <= i <= exponent,
                magnitude(base as int) >= 2,
                acc == pow(base as int, i as nat),
            decreases exponent - i,
        {
            proof {
                reveal(pow);
            }
            match checked_product(acc, base) {
                Some(next) => {
                    assert(acc * base == base * acc) by (nonlinear_arith);
                    acc = next;
                },
                None => {
                    proof {
                        assert(acc * base == base * acc) by (nonlinear_arith);
                        lemma_pow_stays_out_of_range(
                            base as int,
                            (i + 1) as nat,
                            exponent as nat,
                        );
                    }
                    return None;
                },
            }
            i += 1;
        }
        Some(acc)
    }
}

} // verus!
