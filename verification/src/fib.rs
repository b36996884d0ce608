//! Fibonacci numbers, computed with a table of the values already known.

use std::collections::HashMap;
use vstd::prelude::*;

verus! {

broadcast use vstd::std_specs::hash::group_hash_axioms;

/// The Fibonacci numbers: 0, 1, 1, 2, 3, 5, ... counted from `fibonacci(0)`.
pub open spec fn fibonacci(n: nat) -> nat
    decreases n,
{
    if n == 0 {
        0
    } else if n <= 2 {
        1
    } else {
        fibonacci((n - 1) as nat) + fibonacci((n - 2) as nat)
    }
}

/// The Fibonacci numbers never fall: `fibonacci(i) <= fibonacci(j)` for
/// `i <= j`.
pub proof fn fibonacci_monotonic(i: nat, j: nat)
    requires
        i <= j,
    ensures
        fibonacci(i) <= fibonacci(j),
    decreases j,
{
    if i < j {
        fibonacci_monotonic(i, (j - 1) as nat);
    }
}

/// The addition law of the Fibonacci numbers:
/// `fibonacci(m + n) == fibonacci(m) * fibonacci(n + 1) + fibonacci(m - 1) * fibonacci(n)`.
pub proof fn fibonacci_add(m: nat, n: nat)
    requires
        m >= 1,
    ensures
        fibonacci(m + n) == fibonacci(m) * fibonacci(n + 1) + fibonacci((m - 1) as nat)
            * fibonacci(n),
    decreases n,
{
    let a = fibonacci(m);
    let b = fibonacci((m - 1) as nat);
    if n == 0 {
        assert(a * 1 + b * 0 == a) by (nonlinear_arith);
    } else if n == 1 {
        assert(a * 1 + b * 1 == a + b) by (nonlinear_arith);
    } else {
        let p = fibonacci((n - 1) as nat);
        let q = fibonacci((n - 2) as nat);
        fibonacci_add(m, (n - 1) as nat);
        fibonacci_add(m, (n - 2) as nat);
        assert(fibonacci(n) == p + q);
        assert(fibonacci(n + 1) == fibonacci(n) + p);
        assert(a * (p + q + p) + b * (p + q) == (a * (p + q) + b * p) + (a * p + b * q))
            by (nonlinear_arith);
    }
}

/// From three Fibonacci numbers in a row, `a`, `b`, `c` around index `k`,
/// the three around index `2 * k`.
proof fn fibonacci_double(k: nat, a: nat, b: nat, c: nat)
    requires
        k >= 1,
        fibonacci((k - 1) as nat) == a,
        fibonacci(k) == b,
        fibonacci(k + 1) == c,
    ensures
        fibonacci((2 * k - 1) as nat) == b * b + a * a,
        fibonacci(2 * k) == b * c + a * b,
        fibonacci(2 * k + 1) == c * c + b * b,
{
    fibonacci_add(k, (k - 1) as nat);
    fibonacci_add(k, k);
    fibonacci_add(k + 1, k);
}

/// `fibonacci(186)` is the last Fibonacci number that fits in a `u128`.
pub proof fn fibonacci_186()
    ensures
        fibonacci(186) == 332825110087067562321196029789634457848,
        fibonacci(186) <= u128::MAX < fibonacci(187),
{
    assert(fibonacci(4) == 3 && fibonacci(5) == 5 && fibonacci(6) == 8) by {
        reveal_with_fuel(fibonacci, 7);
    }
    fibonacci_double(5, 3, 5, 8);
    assert(fibonacci(10) == 55 && fibonacci(11) == 89 && fibonacci(12) == 144);
    fibonacci_double(11, 55, 89, 144);
    assert(fibonacci(22) == 17711 && fibonacci(23) == 28657 && fibonacci(24) == 46368);
    fibonacci_double(23, 17711, 28657, 46368);
    assert(fibonacci(45) == 1134903170 && fibonacci(46) == 1836311903 && fibonacci(47)
        == 2971215073);
    fibonacci_double(46, 1134903170, 1836311903, 2971215073);
    assert(fibonacci(92) == 7540113804746346429 && fibonacci(93) == 12200160415121876738
        && fibonacci(94) == 19740274219868223167);
    fibonacci_double(93, 7540113804746346429, 12200160415121876738, 19740274219868223167);
}

/// Every entry of `memo` is a Fibonacci number filed under its index.
pub open spec fn is_fib_table(memo: Map<u128, u128>) -> bool {
    forall|k: u128| #[trigger] memo.contains_key(k) ==> memo[k] == fibonacci(k as nat)
}

/// The value at `n` of the Fibonacci recurrence when the entries of `memo`
/// are taken as given: 1 at 1 and 2, what `memo` holds where it holds
/// something, and the sum of the two values before everywhere else.
pub open spec fn fib_over(memo: Map<u128, u128>, n: u128) -> nat
    decreases n,
{
    if n == 1 || n == 2 {
        1
    } else if memo.contains_key(n) {
        memo[n] as nat
    } else if n == 0 {
        0
    } else {
        fib_over(memo, (n - 1) as u128) + fib_over(memo, (n - 2) as u128)
    }
}

/// The recurrence reaches a known value from `n` without leaving `u128`:
/// it never steps below 1, and every sum that it forms fits.
pub open spec fn fib_fits(memo: Map<u128, u128>, n: u128) -> bool
    decreases n,
{
    if n == 1 || n == 2 || memo.contains_key(n) {
        true
    } else if n == 0 {
        false
    } else {
        &&& fib_fits(memo, (n - 1) as u128)
        &&& fib_fits(memo, (n - 2) as u128)
        &&& fib_over(memo, n) <= u128::MAX
    }
}

/// The table after the value at `n` has been computed over `memo`: every
/// index from 3 on that the recurrence had to work out is filed with its
/// value.
pub open spec fn memo_after(memo: Map<u128, u128>, n: u128) -> Map<u128, u128>
    decreases n,
{
    if n <= 2 || memo.contains_key(n) {
        memo
    } else {
        memo_after(memo_after(memo, (n - 1) as u128), (n - 2) as u128).insert(
            n,
            fib_over(memo, n) as u128,
        )
    }
}

/// `after` holds all of `before`, and beyond it only values of the
/// recurrence over `before`, at indices from 3 up to `top`.
pub open spec fn extends_table(before: Map<u128, u128>, after: Map<u128, u128>, top: u128) -> bool {
    &&& before.submap_of(after)
    &&& forall|k: u128| #[trigger]
        after.contains_key(k) && !before.contains_key(k) ==> 3 <= k <= top && after[k]
            == fib_over(before, k)
}

/// Entries that are values of the recurrence change none of its values.
pub proof fn fib_over_extended(before: Map<u128, u128>, after: Map<u128, u128>, top: u128, n: u128)
    requires
        extends_table(before, after, top),
    ensures
        fib_over(after, n) == fib_over(before, n),
    decreases n,
{
    if n >= 3 && !after.contains_key(n) {
        fib_over_extended(before, after, top, (n - 1) as u128);
        fib_over_extended(before, after, top, (n - 2) as u128);
    }
}

/// Where the recurrence fits over a table, it fits over every extension.
pub proof fn fib_fits_extended(before: Map<u128, u128>, after: Map<u128, u128>, top: u128, n: u128)
    requires
        extends_table(before, after, top),
        fib_fits(before, n),
    ensures
        fib_fits(after, n),
    decreases n,
{
    if n >= 3 && !after.contains_key(n) {
        fib_fits_extended(before, after, top, (n - 1) as u128);
        fib_fits_extended(before, after, top, (n - 2) as u128);
        fib_over_extended(before, after, top, n);
    }
}

/// Computing the value at `n` extends the table, by values of the
/// recurrence at indices from 3 up to `n`, and files `n` itself if it is 3
/// or more.
pub proof fn memo_after_extends(memo: Map<u128, u128>, n: u128)
    requires
        fib_fits(memo, n),
    ensures
        extends_table(memo, memo_after(memo, n), n),
        n >= 3 ==> memo_after(memo, n).contains_key(n),
        memo.dom().finite() ==> memo_after(memo, n).dom().finite(),
    decreases n,
{
    if n > 2 && !memo.contains_key(n) {
        let m1 = memo_after(memo, (n - 1) as u128);
        let m2 = memo_after(m1, (n - 2) as u128);
        memo_after_extends(memo, (n - 1) as u128);
        fib_fits_extended(memo, m1, (n - 1) as u128, (n - 2) as u128);
        memo_after_extends(m1, (n - 2) as u128);
        let after = memo_after(memo, n);
        assert(after == m2.insert(n, fib_over(memo, n) as u128));
        assert forall|k: u128| #[trigger]
            after.contains_key(k) && !memo.contains_key(k) implies 3 <= k <= n && after[k]
            == fib_over(memo, k) by {
            if k != n {
                assert(m2.contains_key(k) && after[k] == m2[k]);
                fib_over_extended(memo, m1, (n - 1) as u128, k);
                if m1.contains_key(k) {
                    assert(m2[k] == m1[k]);
                }
            }
        }
        assert(memo.submap_of(after)) by {
            assert forall|k: u128| #[trigger] memo.dom().contains(k) implies after.dom().contains(
                k,
            ) && memo[k] == after[k] by {
                assert(m1.dom().contains(k) && m1[k] == memo[k]);
                assert(m2.dom().contains(k) && m2[k] == m1[k]);
            }
        }
    }
}

/// Over a table of Fibonacci numbers the recurrence gives the Fibonacci
/// numbers.
pub proof fn fib_over_table(memo: Map<u128, u128>, n: u128)
    requires
        is_fib_table(memo),
    ensures
        fib_over(memo, n) == fibonacci(n as nat),
    decreases n,
{
    if n >= 3 && !memo.contains_key(n) {
        fib_over_table(memo, (n - 1) as u128);
        fib_over_table(memo, (n - 2) as u128);
    }
}

/// Over a table of Fibonacci numbers the recurrence fits for every `n` from
/// 1 to 186.
pub proof fn fib_fits_table(memo: Map<u128, u128>, n: u128)
    requires
        is_fib_table(memo),
        1 <= n <= 186,
    ensures
        fib_fits(memo, n),
    decreases n,
{
    if n >= 3 && !memo.contains_key(n) {
        fib_fits_table(memo, (n - 1) as u128);
        fib_fits_table(memo, (n - 2) as u128);
        fib_over_table(memo, n);
        fibonacci_monotonic(n as nat, 186);
        fibonacci_186();
    }
}

/// A table of Fibonacci numbers stays one when a value is computed over it.
pub proof fn memo_after_table(memo: Map<u128, u128>, n: u128)
    requires
        is_fib_table(memo),
        fib_fits(memo, n),
    ensures
        is_fib_table(memo_after(memo, n)),
{
    memo_after_extends(memo, n);
    let after = memo_after(memo, n);
    assert forall|k: u128| #[trigger] after.contains_key(k) implies after[k] == fibonacci(
        k as nat,
    ) by {
        fib_over_table(memo, k);
        if memo.contains_key(k) {
            assert(after[k] == memo[k]);
        }
    }
}

/// The `n`th Fibonacci number for `n` from 1 on, or more generally the
/// value at `n` of the recurrence over `memo`. Values worked out on the way
/// are filed in `memo`, and values found there are not worked out again.
pub fn fib(n: u128, memo: &mut HashMap<u128, u128>) -> (result: u128)
    requires
        fib_fits(old(memo)@, n) || (is_fib_table(old(memo)@) && 1 <= n <= 186),
    ensures
        result == fib_over(old(memo)@, n),
        final(memo)@ == memo_after(old(memo)@, n),
        is_fib_table(old(memo)@) ==> result == fibonacci(n as nat) && is_fib_table(final(memo)@),
    decreases n,
{
    proof {
        if is_fib_table(memo@) && 1 <= n <= 186 {
            fib_fits_table(memo@, n);
        }
        memo_after_extends(memo@, n);
        if is_fib_table(memo@) {
            fib_over_table(memo@, n);
            memo_after_table(memo@, n);
        }
    }
    match n {
        1 | 2 => 1,
        _ => {
            match memo.get(&n) {
                Some(known) => *known,
                None => {
                    let ghost m0 = memo@;
                    let a = fib(n - 1, memo);
                    let ghost m1 = memo@;
                    proof {
                        memo_after_extends(m0, (n - 1) as u128);
                        fib_fits_extended(m0, m1, (n - 1) as u128, (n - 2) as u128);
                        fib_over_extended(m0, m1, (n - 1) as u128, (n - 2) as u128);
                    }
                    let b = fib(n - 2, memo);
                    let result = a + b;
                    memo.insert(n, result);
                    result
                },
            }
        },
    }
}

} // verus!
