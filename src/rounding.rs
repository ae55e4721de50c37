use vstd::prelude::*;

verus! {

/// Nearest integer to `n / d` for `n >= 0`, `d > 0`; a tie goes to the even neighbour.
pub open spec fn round_half_even_nat(n: nat, d: nat) -> int {
    let q = (n / d) as int;
    let r = (n % d) as int;
    if 2 * r < d {
        q
    } else if 2 * r > d {
        q + 1
    } else if q % 2 == 0 {
        q
    } else {
        q + 1
    }
}

/// Nearest integer to `n / d` for `d > 0`; a tie goes to the even neighbour.
/// The rule is symmetric about zero.
pub open spec fn round_half_even(n: int, d: int) -> int {
    if n >= 0 {
        round_half_even_nat(n as nat, d as nat)
    } else {
        -round_half_even_nat((-n) as nat, d as nat)
    }
}

proof fn lemma_round_nat_close(n: nat, d: nat)
    requires
        d > 0,
    ensures
        -(d as int) <= 2 * (n - d * round_half_even_nat(n, d)) <= d,
        2 * (n - d * round_half_even_nat(n, d)) == d ==> round_half_even_nat(n, d) % 2 == 0,
        2 * (n - d * round_half_even_nat(n, d)) == -(d as int) ==> round_half_even_nat(n, d) % 2
            == 0,
        round_half_even_nat(n, d) >= 0,
        round_half_even_nat(n, d) <= n,
{
    let q = (n / d) as int;
    let r = (n % d) as int;
    let k = round_half_even_nat(n, d);
    vstd::arithmetic::div_mod::lemma_fundamental_div_mod(n as int, d as int);
    assert(n == d * q + r);
    assert(0 <= r < d);
    assert(q >= 0) by (nonlinear_arith)
        requires
            n == d * q + r,
            r < d,
            d > 0,
            n >= 0,
    ;
    assert(d * (q + 1) == d * q + d) by (nonlinear_arith);
    assert(k <= n) by (nonlinear_arith)
        requires
            -(d as int) <= 2 * (n - d * k),
            d > 0,
            n >= 0,
    ;
}

/// `round_half_even` puts `n` within half a step of a multiple of `d`, and
/// picks the even multiple when `n` lies exactly halfway.
pub proof fn lemma_round_close(n: int, d: int)
    requires
        d > 0,
    ensures
        -d <= 2 * (n - d * round_half_even(n, d)) <= d,
        2 * (n - d * round_half_even(n, d)) == d ==> round_half_even(n, d) % 2 == 0,
        2 * (n - d * round_half_even(n, d)) == -d ==> round_half_even(n, d) % 2 == 0,
        n >= 0 ==> round_half_even(n, d) >= 0,
        n <= 0 ==> round_half_even(n, d) <= 0,
        n >= 0 ==> round_half_even(n, d) <= n,
        n <= 0 ==> round_half_even(n, d) >= n,
{
    if n >= 0 {
        lemma_round_nat_close(n as nat, d as nat);
    } else {
        let m = (-n) as nat;
        let k = round_half_even_nat(m, d as nat);
        lemma_round_nat_close(m, d as nat);
        assert(d * (-k) == -(d * k)) by (nonlinear_arith);
        assert((-k) % 2 == 0 <==> k % 2 == 0);
    }
}

/// A multiple of `d` rounds to its own quotient.
pub proof fn lemma_round_exact(k: int, d: int)
    requires
        d > 0,
    ensures
        round_half_even(k * d, d) == k,
{
    if k >= 0 {
        assert(k * d >= 0) by (nonlinear_arith)
            requires
                k >= 0,
                d > 0,
        ;
        vstd::arithmetic::div_mod::lemma_div_multiples_vanish(k, d);
        vstd::arithmetic::div_mod::lemma_mod_multiples_basic(k, d);
        assert(d * k == k * d) by (nonlinear_arith);
    } else {
        let m = -k;
        assert(k * d == -(m * d)) by (nonlinear_arith)
            requires
                m == -k,
        ;
        assert(m * d > 0) by (nonlinear_arith)
            requires
                m > 0,
                d > 0,
        ;
        vstd::arithmetic::div_mod::lemma_div_multiples_vanish(m, d);
        vstd::arithmetic::div_mod::lemma_mod_multiples_basic(m, d);
        assert(d * m == m * d) by (nonlinear_arith);
    }
}

/// Rounds `n / d` to the nearest integer, a tie going to the even neighbour.
pub fn div_round_half_even(n: u64, d: u64) -> (r: u64)
    requires
        d > 0,
    ensures
        r as int == round_half_even_nat(n as nat, d as nat),
{
    let q = n / d;
    let rem = n % d;
    if rem < d - rem {
        q
    } else if rem > d - rem {
        proof {
            assert(q <= n) by {
                vstd::arithmetic::div_mod::lemma_div_is_ordered_by_denominator(n as int, 1, d as int);
            }
            assert(d >= 2);
            assert(q < u64::MAX) by {
                vstd::arithmetic::div_mod::lemma_div_is_ordered_by_denominator(n as int, 2, d as int);
                assert(n as int / 2 < u64::MAX);
            }
        }
        q + 1
    } else if q % 2 == 0 {
        q
    } else {
        proof {
            assert(d >= 2);
            assert(q < u64::MAX) by {
                vstd::arithmetic::div_mod::lemma_div_is_ordered_by_denominator(n as int, 2, d as int);
                assert(n as int / 2 < u64::MAX);
            }
        }
        q + 1
    }
}

/// Signed form of `div_round_half_even`.
pub fn div_round_half_even_signed(n: i64, d: i64) -> (r: i64)
    requires
        d > 0,
        n > i64::MIN,
    ensures
        r as int == round_half_even(n as int, d as int),
{
    proof {
        lemma_round_close(n as int, d as int);
    }
    if n >= 0 {
        div_round_half_even(n as u64, d as u64) as i64
    } else {
        let m: u64 = (-n) as u64;
        let k = div_round_half_even(m, d as u64);
        -(k as i64)
    }
}

} // verus!
