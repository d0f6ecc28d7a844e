//! The primality test and the definition it is proved against.

use vstd::prelude::*;
use crate::sqrt::integer_sqrt;

verus! {

/// `d` is a positive divisor of `n`.
pub open spec fn divides(d: nat, n: nat) -> bool {
    d > 0 && n % d == 0
}

/// `n` is a prime number: it has exactly two distinct positive divisors,
/// 1 and itself.
pub open spec fn is_prime_number(n: nat) -> bool {
    n >= 2 && forall|d: nat| #[trigger] divides(d, n) ==> d == 1 || d == n
}

/// A product `q * d` is divisible by `d`, with quotient `q`.
pub proof fn lemma_product_divisible(q: nat, d: nat)
    requires
        d > 0,
    ensures
        divides(d, q * d),
        (q * d) / d == q,
{
    vstd::arithmetic::div_mod::lemma_fundamental_div_mod_converse(
        (q * d) as int,
        d as int,
        q as int,
        0,
    );
}

/// A divisor `d` of `n` comes with a cofactor `n / d` that divides `n` too,
/// and the two multiply to `n`.
pub proof fn lemma_cofactor(d: nat, n: nat)
    requires
        divides(d, n),
        n > 0,
    ensures
        (n / d) * d == n,
        divides(n / d, n),
        1 <= n / d <= n,
        d <= n,
{
    let q = n / d;
    vstd::arithmetic::div_mod::lemma_fundamental_div_mod(n as int, d as int);
    assert(q * d == n && 1 <= q <= n && d <= n) by (nonlinear_arith)
        requires
            n == d * q,
            n > 0,
            d > 0,
    ;
    lemma_product_divisible(d, q);
}

/// Every multiple of an even number is even.
pub proof fn lemma_even_divisor(d: nat, n: nat)
    requires
        divides(d, n),
        d % 2 == 0,
    ensures
        n % 2 == 0,
{
    if n > 0 {
        lemma_cofactor(d, n);
        let q = n / d;
        let h = d / 2;
        assert(n == (q * h) * 2) by (nonlinear_arith)
            requires
                q * d == n,
                d == 2 * h,
        ;
        lemma_product_divisible(q * h, 2);
    }
}

/// A number with a divisor strictly between 1 and itself is not prime.
pub proof fn lemma_proper_divisor_not_prime(d: nat, n: nat)
    requires
        1 < d < n,
        n % d == 0,
    ensures
        !is_prime_number(n),
{
    assert(divides(d, n));
}

/// No even number above 2 is prime.
pub proof fn lemma_even_above_two_not_prime(n: nat)
    requires
        n > 2,
        n % 2 == 0,
    ensures
        !is_prime_number(n),
{
    lemma_proper_divisor_not_prime(2, n);
}

/// Neither 0 nor 1 is prime.
pub proof fn lemma_below_two_not_prime(n: nat)
    requires
        n < 2,
    ensures
        !is_prime_number(n),
{
}

/// Trial division up to the square root settles primality of an odd number:
/// if no odd `d` with `3 <= d <= root` divides `n`, where `n` lies below
/// `(root + 1)` squared, then `n` is prime.
pub proof fn lemma_trial_division_complete(n: nat, root: nat)
    requires
        n >= 2,
        n % 2 == 1,
        n < (root + 1) * (root + 1),
        forall|d: nat| 3 <= d <= root && d % 2 == 1 ==> !#[trigger] divides(d, n),
    ensures
        is_prime_number(n),
{
    assert forall|d: nat| #[trigger] divides(d, n) implies d == 1 || d == n by {
        if d != 1 && d != n {
            lemma_cofactor(d, n);
            let q = n / d;
            assert(q != 1 && q != n) by (nonlinear_arith)
                requires
                    q * d == n,
                    d != 1,
                    d != n,
                    n >= 2,
            ;
            // The smaller of the divisor and its cofactor is at most `root`.
            let s = if d <= q { d } else { q };
            assert(s <= root) by (nonlinear_arith)
                requires
                    q * d == n,
                    n < (root + 1) * (root + 1),
                    s == d || s == q,
                    s <= d,
                    s <= q,
            ;
            assert(divides(s, n));
            if s % 2 == 0 {
                lemma_even_divisor(s, n);
            }
            assert(false);
        }
    }
}

/// Tells whether `n` is a prime number.
///
/// After the cases below 4 and the even numbers, the test divides `n` by
/// every odd candidate from 3 up to one past the integer square root of `n`.
/// Every odd candidate is tried, so odd composites such as 9, 15 and 25 are
/// rejected.
pub fn is_prime(n: u32) -> (prime: bool)
    ensures
        prime == is_prime_number(n as nat),
        n < 2 ==> !prime,
        n > 2 && n % 2 == 0 ==> !prime,
{
    if n < 2 {
        return false;
    }
    if n < 4 {
        proof {
            assert forall|d: nat| #[trigger] divides(d, n as nat) implies d == 1 || d == n by {
                lemma_cofactor(d, n as nat);
            }
        }
        return true;
    }
    if n % 2 == 0 {
        proof {
            lemma_even_above_two_not_prime(n as nat);
        }
        return false;
    }
    let root: u32 = integer_sqrt(n);
    let limit: u32 = root + 1;
    proof {
        assert(root >= 2) by (nonlinear_arith)
            requires
                n >= 5,
                n < (root + 1) * (root + 1),
        ;
        assert(limit < n) by (nonlinear_arith)
            requires
                root >= 2,
                root * root <= n,
                limit == root + 1,
        ;
    }
    let mut i: u32 = 3;
    while i <= limit
        invariant
            n >= 5,
            n % 2 == 1,
            limit == root + 1,
            limit < n,
            root <= 0xffff,
            3 <= i <= limit + 2,
            i % 2 == 1,
            forall|d: nat| 3 <= d < i && d % 2 == 1 ==> !#[trigger] divides(d, n as nat),
        decreases limit + 2 - i,
    {
        if n % i == 0 {
            proof {
                lemma_proper_divisor_not_prime(i as nat, n as nat);
            }
            return false;
        }
        i = i + 2;
    }
    proof {
        lemma_trial_division_complete(n as nat, root as nat);
    }
    true
}

/// The result of `is_prime` depends on its argument alone: any two results
/// that meet its contract for the same `n` are equal.
pub proof fn lemma_is_prime_deterministic(n: u32, first: bool, second: bool)
    requires
        first == is_prime_number(n as nat),
        second == is_prime_number(n as nat),
    ensures
        first == second,
{
}

} // verus!
