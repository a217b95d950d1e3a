//! Powers of two, as ring capacities use them.

use vstd::arithmetic::power2::is_pow2;
use vstd::prelude::*;

verus! {

/// The least power of two that is at least `n`.
pub open spec fn next_power(n: nat) -> nat
    decreases n,
{
    if n <= 1 {
        1
    } else {
        2 * next_power((n + 1) / 2)
    }
}

/// Doubling a power of two gives a power of two.
pub proof fn lemma_power_doubles(p: int)
    requires
        is_pow2(p),
    ensures
        p > 0,
        is_pow2(2 * p),
{
    reveal(is_pow2);
    assert((2 * p) / 2 == p);
}

/// Of two distinct powers of two, one is at least twice the other.
pub proof fn lemma_powers_apart(p: int, q: int)
    requires
        is_pow2(p),
        is_pow2(q),
        p < q,
    ensures
        2 * p <= q,
    decreases q,
{
    reveal(is_pow2);
    if p > 1 {
        lemma_powers_apart(p / 2, q / 2);
    }
}

/// A power of two divides every power of two that is not smaller.
pub proof fn lemma_power_divides(p: int, q: int)
    requires
        is_pow2(p),
        is_pow2(q),
        p <= q,
    ensures
        q % p == 0,
    decreases q,
{
    reveal(is_pow2);
    if p == q {
        vstd::arithmetic::div_mod::lemma_mod_self_0(p);
    } else {
        lemma_powers_apart(p, q);
        let half = q / 2;
        lemma_power_divides(p, half);
        assert(half == p * (half / p)) by {
            vstd::arithmetic::div_mod::lemma_fundamental_div_mod(half, p);
        }
        assert(q % p == 0) by (nonlinear_arith)
            requires
                p > 0,
                q == 2 * half,
                half == p * (half / p),
        {
            assert(q == (2 * (half / p)) * p);
            vstd::arithmetic::div_mod::lemma_mod_multiples_basic(2 * (half / p), p);
        }
    }
}

/// `next_power(n)` is a power of two, at least `n`, and no larger than any other
/// such power.
pub proof fn lemma_next_power_is_least(n: nat)
    ensures
        is_pow2(next_power(n) as int),
        n <= next_power(n),
        forall|q: int| #[trigger] is_pow2(q) && n <= q ==> next_power(n) <= q,
    decreases n,
{
    reveal(is_pow2);
    if n > 1 {
        let half = (n + 1) / 2;
        lemma_next_power_is_least(half);
        lemma_power_doubles(next_power(half) as int);
        assert forall|q: int| #[trigger] is_pow2(q) && n <= q implies next_power(n) <= q by {
            assert(is_pow2(q / 2));
            assert(half <= q / 2);
        }
    }
}

/// Returns whether `n` is a power of two.
pub fn is_power_of_two(n: usize) -> (power: bool)
    ensures
        power == is_pow2(n as int),
{
    reveal(is_pow2);
    if n == 0 {
        return false;
    }
    let mut rest: usize = n;
    while rest % 2 == 0
        invariant
            0 < rest <= n,
            is_pow2(n as int) == is_pow2(rest as int),
        decreases rest,
    {
        reveal(is_pow2);
        rest = rest / 2;
    }
    rest == 1
}

/// Returns the least power of two that is at least `n`, or `None` where a `usize`
/// cannot hold it.
pub fn checked_next_power_of_two(n: usize) -> (power: Option<usize>)
    ensures
        power == (if next_power(n as nat) <= usize::MAX {
            Some(next_power(n as nat) as usize)
        } else {
            None
        }),
{
    proof {
        lemma_next_power_is_least(n as nat);
    }
    let mut power: usize = 1;
    assert(is_pow2(1)) by {
        reveal(is_pow2);
    }
    while power < n
        invariant
            is_pow2(power as int),
            is_pow2(next_power(n as nat) as int),
            n <= next_power(n as nat),
            power <= next_power(n as nat),
            forall|q: int| #[trigger] is_pow2(q) && n <= q ==> next_power(n as nat) <= q,
        decreases next_power(n as nat) - power,
    {
        proof {
            lemma_powers_apart(power as int, next_power(n as nat) as int);
            lemma_power_doubles(power as int);
        }
        if power > usize::MAX / 2 {
            return None;
        }
        power = power * 2;
    }
    assert(power as int == next_power(n as nat));
    Some(power)
}

} // verus!
