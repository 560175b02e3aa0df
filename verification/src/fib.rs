//! The Fibonacci numbers, computed by fast doubling.

use vstd::prelude::*;

verus! {

/// The Fibonacci sequence: 0, 1, 1, 2, 3, 5, 8, ...
pub open spec fn fib_spec(n: nat) -> nat
    decreases n,
{
    if n == 0 {
        0
    } else if n == 1 {
        1
    } else {
        fib_spec((n - 1) as nat) + fib_spec((n - 2) as nat)
    }
}

/// The sequence never decreases.
pub proof fn lemma_fib_monotonic(i: nat, j: nat)
    requires
        i <= j,
    ensures
        fib_spec(i) <= fib_spec(j),
    decreases j,
{
    if i < j {
        if j >= 2 {
            lemma_fib_monotonic(i, (j - 1) as nat);
        }
    }
}

/// The addition law: `F(m + n + 1) = F(m + 1) F(n + 1) + F(m) F(n)`.
pub proof fn lemma_fib_addition(m: nat, n: nat)
    ensures
        fib_spec(m + n + 1) == fib_spec(m + 1) * fib_spec(n + 1) + fib_spec(m) * fib_spec(n),
    decreases n,
{
    if n == 0 {
        assert(fib_spec(m + 1) * 1 + fib_spec(m) * 0 == fib_spec(m + 1)) by (nonlinear_arith);
    } else if n == 1 {
        assert(fib_spec(2) == 1) by {
            reveal_with_fuel(fib_spec, 3);
        }
        assert(fib_spec(m + 2) == fib_spec(m + 1) + fib_spec(m));
        assert(fib_spec(m + 1) * 1 + fib_spec(m) * 1 == fib_spec(m + 1) + fib_spec(m))
            by (nonlinear_arith);
    } else {
        lemma_fib_addition(m, (n - 1) as nat);
        lemma_fib_addition(m, (n - 2) as nat);
        let a = fib_spec(m + 1);
        let b = fib_spec(m);
        let x = fib_spec(n as nat);
        let y = fib_spec((n - 1) as nat);
        let z = fib_spec((n - 2) as nat);
        assert(fib_spec(n + 1) == x + y);
        assert(x == y + z);
        assert(fib_spec(m + n + 1) == fib_spec(m + n) + fib_spec((m + n - 1) as nat));
        assert(fib_spec(m + n) == a * x + b * y);
        assert(fib_spec((m + n - 1) as nat) == a * y + b * z);
        assert(a * (x + y) + b * (y + z) == (a * x + b * y) + (a * y + b * z))
            by (nonlinear_arith);
    }
}

/// The doubling identities behind the fast computation:
/// `F(2k) = F(k) (2 F(k+1) - F(k))` and `F(2k+1) = F(k)^2 + F(k+1)^2`.
pub proof fn lemma_fib_doubling(k: nat)
    ensures
        2 * fib_spec(k + 1) >= fib_spec(k),
        fib_spec(2 * k) == fib_spec(k) * (2 * fib_spec(k + 1) - fib_spec(k)),
        fib_spec(2 * k + 1) == fib_spec(k) * fib_spec(k) + fib_spec(k + 1) * fib_spec(k + 1),
{
    let a = fib_spec(k);
    let b = fib_spec(k + 1);
    lemma_fib_monotonic(k, k + 1);
    lemma_fib_addition(k, k);
    assert(fib_spec(2 * k + 1) == b * b + a * a);
    assert(b * b + a * a == a * a + b * b);
    if k == 0 {
        assert(a * (2 * b - a) == 0) by (nonlinear_arith)
            requires
                a == 0,
        ;
    } else {
        let p = fib_spec((k - 1) as nat);
        lemma_fib_addition((k - 1) as nat, k);
        assert(b == a + p);
        assert(fib_spec(2 * k) == a * b + p * a);
        assert(a * b + p * a == a * (2 * b - a)) by (nonlinear_arith)
            requires
                b == a + p,
        ;
    }
}

/// What one doubling step computes from `a = F(k)` and `b = F(k + 1)`, and
/// that none of it exceeds `F(n + 1)` (or 2), where `k` is half of `n`.
pub proof fn lemma_doubling_step(n: nat, k: nat)
    requires
        n >= 1,
        k == n / 2,
    ensures
        fib_spec(k) <= fib_spec(k + 1) <= fib_spec(n + 1),
        2 * fib_spec(k + 1) <= fib_spec(n + 1) || 2 * fib_spec(k + 1) <= 2,
        fib_spec(k) * (2 * fib_spec(k + 1) - fib_spec(k)) == fib_spec(2 * k),
        fib_spec(k) * fib_spec(k) + fib_spec(k + 1) * fib_spec(k + 1) == fib_spec(2 * k + 1),
        fib_spec(k) * fib_spec(k) <= fib_spec(2 * k + 1),
        fib_spec(k + 1) * fib_spec(k + 1) <= fib_spec(2 * k + 1),
        fib_spec(2 * k) <= fib_spec(2 * k + 1) <= fib_spec(n + 1),
        n % 2 == 0 ==> n == 2 * k,
        n % 2 == 1 ==> n == 2 * k + 1 && fib_spec(n + 1) == fib_spec(2 * k) + fib_spec(2 * k + 1),
{
    let a = fib_spec(k);
    let b = fib_spec(k + 1);
    lemma_fib_monotonic(k, k + 1);
    lemma_fib_monotonic(k + 1, n + 1);
    lemma_fib_monotonic(2 * k, 2 * k + 1);
    lemma_fib_monotonic(2 * k + 1, n + 1);
    lemma_fib_doubling(k);
    assert(a * a >= 0 && b * b >= 0) by (nonlinear_arith);
    if k >= 2 {
        lemma_fib_monotonic(k + 3, 2 * k + 1);
        assert(fib_spec(k + 3) == fib_spec(k + 2) + fib_spec(k + 1));
        assert(fib_spec(k + 2) == fib_spec(k + 1) + fib_spec(k));
    } else {
        assert(fib_spec(1) == 1 && fib_spec(2) == 1) by {
            reveal_with_fuel(fib_spec, 3);
        }
    }
    if n % 2 == 1 {
        assert(fib_spec(n + 1) == fib_spec(n) + fib_spec((n - 1) as nat));
    }
}

/// The pair `(F(n), F(n + 1))`.
pub fn _fib(n: usize) -> (r: (usize, usize))
    requires
        fib_spec((n + 1) as nat) <= usize::MAX,
    ensures
        r.0 == fib_spec(n as nat),
        r.1 == fib_spec((n + 1) as nat),
    decreases n,
{
    if n == 0 {
        (0, 1)
    } else {
        let k: usize = n / 2;
        proof {
            lemma_doubling_step(n as nat, k as nat);
        }
        let (a, b) = _fib(k);
        let twice: usize = b * 2;
        let c: usize = a * (twice - a);
        let aa: usize = a * a;
        let bb: usize = b * b;
        let d: usize = aa + bb;
        if n % 2 == 0 {
            (c, d)
        } else {
            (d, c + d)
        }
    }
}

/// The `n`-th Fibonacci number.
pub fn fib(n: usize) -> (r: usize)
    requires
        fib_spec(n as nat) <= usize::MAX,
    ensures
        r == fib_spec(n as nat),
{
    if n == 0 {
        0
    } else {
        let (_, b) = _fib(n - 1);
        b
    }
}

/// The pair `(F(n), F(n + 1))`, if `F(n + 1)` fits in a `usize`.
pub fn checked_fib_pair(n: usize) -> (r: Option<(usize, usize)>)
    ensures
        match r {
            Some(p) => p.0 == fib_spec(n as nat) && p.1 == fib_spec((n + 1) as nat),
            None => fib_spec((n + 1) as nat) > usize::MAX,
        },
    decreases n,
{
    if n == 0 {
        return Some((0, 1));
    }
    let k: usize = n / 2;
    proof {
        lemma_doubling_step(n as nat, k as nat);
    }
    let (a, b) = match checked_fib_pair(k) {
        Some(p) => p,
        None => {
            return None;
        },
    };
    let twice: usize = match b.checked_mul(2) {
        Some(t) => t,
        None => {
            return None;
        },
    };
    let c: usize = match a.checked_mul(twice - a) {
        Some(c) => c,
        None => {
            return None;
        },
    };
    let aa: usize = match a.checked_mul(a) {
        Some(x) => x,
        None => {
            return None;
        },
    };
    let bb: usize = match b.checked_mul(b) {
        Some(x) => x,
        None => {
            return None;
        },
    };
    let d: usize = match aa.checked_add(bb) {
        Some(d) => d,
        None => {
            return None;
        },
    };
    if n % 2 == 0 {
        Some((c, d))
    } else {
        match c.checked_add(d) {
            Some(e) => Some((d, e)),
            None => None,
        }
    }
}

/// The `n`-th Fibonacci number, if it fits in a `usize`.
pub fn checked_fib(n: usize) -> (r: Option<usize>)
    ensures
        r == (if fib_spec(n as nat) <= usize::MAX {
            Some(fib_spec(n as nat) as usize)
        } else {
            None
        }),
{
    if n == 0 {
        Some(0)
    } else {
        match checked_fib_pair(n - 1) {
            Some(p) => Some(p.1),
            None => None,
        }
    }
}

} // verus!
