use vstd::prelude::*;

verus! {

/// Largest number of control points whose curve weights this library computes.
pub const MAX_CURVE_POINTS: usize = 16;

/// The binomial coefficient `n` choose `k`, by Pascal's rule.
pub open spec fn binom(n: nat, k: nat) -> nat
    decreases n,
{
    if k == 0 {
        1
    } else if n == 0 {
        0
    } else {
        binom((n - 1) as nat, (k - 1) as nat) + binom((n - 1) as nat, k)
    }
}

pub open spec fn min_nat(a: nat, b: nat) -> nat {
    if a <= b { a } else { b }
}

/// Every intermediate product of the multiplicative formula for `n` choose `k`
/// fits in an `i32`.
pub open spec fn binomial_fits_i32(n: int, k: int) -> bool {
    binom(n as nat, k as nat) * min_nat(k as nat, (n - k) as nat) <= i32::MAX
}

pub open spec fn pow2(n: nat) -> nat
    decreases n,
{
    if n == 0 { 1 } else { 2 * pow2((n - 1) as nat) }
}

proof fn lemma_binom_zero_above(n: nat, k: nat)
    requires
        k > n,
    ensures
        binom(n, k) == 0,
    decreases n,
{
    if n > 0 {
        lemma_binom_zero_above((n - 1) as nat, (k - 1) as nat);
        lemma_binom_zero_above((n - 1) as nat, k);
    }
}

proof fn lemma_binom_diag(n: nat)
    ensures
        binom(n, n) == 1,
    decreases n,
{
    if n > 0 {
        lemma_binom_diag((n - 1) as nat);
        lemma_binom_zero_above((n - 1) as nat, n);
    }
}

/// `k * C(n, k) == n * C(n - 1, k - 1)`.
proof fn lemma_binom_absorb(n: nat, k: nat)
    requires
        1 <= k,
        1 <= n,
    ensures
        k * binom(n, k) == n * binom((n - 1) as nat, (k - 1) as nat),
    decreases n,
{
    let m = (n - 1) as nat;
    if k > n {
        lemma_binom_zero_above(n, k);
        lemma_binom_zero_above(m, (k - 1) as nat);
        assert(k * binom(n, k) == 0);
        assert(n * binom(m, (k - 1) as nat) == 0);
    } else if n == 1 {
        lemma_binom_diag(0);
        lemma_binom_diag(1);
        assert(k == 1);
        assert(m == 0);
        assert(k * binom(n, k) == 1);
        assert(n * binom(m, (k - 1) as nat) == 1);
    } else if k == 1 {
        // C(n, 1) == n
        lemma_binom_one(n);
        assert(binom(m, 0) == 1);
        assert(k * binom(n, k) == n);
        assert((k - 1) as nat == 0);
        let b0 = binom(m, 0);
        assert(n * b0 == n) by (nonlinear_arith)
            requires
                b0 == 1,
        ;
    } else {
        // k C(n,k) = k C(m,k-1) + k C(m,k)
        //          = (k-1) C(m,k-1) + C(m,k-1) + k C(m,k)
        //          = m C(m-1,k-2) + C(m,k-1) + m C(m-1,k-1)
        //          = m C(m,k-1) + C(m,k-1) = n C(m,k-1)
        lemma_binom_absorb(m, (k - 1) as nat);
        lemma_binom_absorb(m, k);
        let a = binom(m, (k - 1) as nat);
        let b = binom(m, k);
        let c = binom((m - 1) as nat, (k - 2) as nat);
        let d = binom((m - 1) as nat, (k - 1) as nat);
        assert(binom(n, k) == a + b);
        assert(a == c + d);
        assert(((k - 1) as nat) * a == m * c);
        assert(k * b == m * d);
        assert(k * (a + b) == ((k - 1) as nat) * a + a + k * b) by (nonlinear_arith)
            requires
                k >= 1,
        ;
        assert(m * c + m * d == m * a) by (nonlinear_arith)
            requires
                a == c + d,
        ;
        assert(m * a + a == n * a) by (nonlinear_arith)
            requires
                n == m + 1,
        ;
        assert(k * binom(n, k) == n * a);
    }
}

proof fn lemma_binom_one(n: nat)
    ensures
        binom(n, 1) == n,
    decreases n,
{
    if n > 0 {
        lemma_binom_one((n - 1) as nat);
        assert(binom((n - 1) as nat, 0) == 1);
    }
}

/// The coefficients of a row of Pascal's triangle are symmetric.
pub proof fn lemma_binom_symmetric(n: nat, k: nat)
    requires
        k <= n,
    ensures
        binom(n, k) == binom(n, (n - k) as nat),
    decreases n,
{
    if k == 0 {
        lemma_binom_diag(n);
    } else if k == n {
        lemma_binom_diag(n);
    } else {
        let m = (n - 1) as nat;
        lemma_binom_symmetric(m, (k - 1) as nat);
        lemma_binom_symmetric(m, k);
        assert((m - (k - 1)) as nat == (n - k) as nat);
        assert((m - k) as nat == ((n - k) - 1) as nat);
    }
}

/// `C(m, j) <= C(m + 1, j + 1)`.
proof fn lemma_binom_step_up(m: nat, j: nat)
    ensures
        binom(m, j) <= binom(m + 1, j + 1),
{
}

/// Climbing the diagonal: `C(m + i, i) <= C(m + t, t)` for `i <= t`.
proof fn lemma_binom_diag_mono(m: nat, i: nat, t: nat)
    requires
        i <= t,
    ensures
        binom(m + i, i) <= binom(m + t, t),
    decreases t - i,
{
    if i < t {
        lemma_binom_step_up(m + i, i);
        lemma_binom_diag_mono(m, i + 1, t);
    }
}

proof fn lemma_binom_le_pow2(n: nat, k: nat)
    ensures
        binom(n, k) <= pow2(n),
    decreases n,
{
    lemma_pow2_positive(n);
    if k > 0 && n > 0 {
        lemma_binom_le_pow2((n - 1) as nat, (k - 1) as nat);
        lemma_binom_le_pow2((n - 1) as nat, k);
    }
}

proof fn lemma_pow2_positive(n: nat)
    ensures
        pow2(n) >= 1,
    decreases n,
{
    if n > 0 {
        lemma_pow2_positive((n - 1) as nat);
    }
}

proof fn lemma_pow2_mono(a: nat, b: nat)
    requires
        a <= b,
    ensures
        pow2(a) <= pow2(b),
    decreases b,
{
    if a < b {
        lemma_pow2_mono(a, (b - 1) as nat);
    }
}

/// The binomial coefficient `n` choose `k`, by the multiplicative formula
/// over the smaller of `k` and `n - k`.
pub fn binomial_coefficient(n: i32, k: i32) -> (r: i32)
    requires
        0 <= k <= n,
        binomial_fits_i32(n as int, k as int),
    ensures
        r == binom(n as nat, k as nat),
{
    if k == 0 || k == n {
        proof {
            lemma_binom_diag(n as nat);
        }
        return 1;
    }
    let k2: i32 = if k > n - k { n - k } else { k };
    proof {
        lemma_binom_symmetric(n as nat, k as nat);
        assert(binom(n as nat, k2 as nat) == binom(n as nat, k as nat));
    }
    let base: i32 = n - k2;
    let mut result: i32 = 1;
    let mut i: i32 = 1;
    while i <= k2
        invariant
            1 <= i <= k2 + 1,
            0 < k2 < n,
            base == n - k2,
            result == binom((base + i - 1) as nat, (i - 1) as nat),
            binom(n as nat, k2 as nat) * (k2 as nat) <= i32::MAX,
        decreases k2 + 1 - i,
    {
        let ghost prev = result;
        let ghost m = (base + i) as nat;
        proof {
            lemma_binom_absorb(m, i as nat);
            assert((m - 1) as nat == (base + i - 1) as nat);
            lemma_binom_diag_mono(base as nat, i as nat, k2 as nat);
            assert(base + k2 == n);
            assert(binom(m, i as nat) * (i as nat) <= binom(n as nat, k2 as nat) * (k2 as nat))
                by (nonlinear_arith)
                requires
                    binom(m, i as nat) <= binom(n as nat, k2 as nat),
                    i <= k2,
                    0 < i,
            ;
            assert(prev * m == (i as nat) * binom(m, i as nat));
        }
        result = result * (base + i);
        proof {
            assert(result == (i as int) * binom(m, i as nat));
            assert(((i as int) * binom(m, i as nat)) / (i as int) == binom(m, i as nat))
                by (nonlinear_arith)
                requires
                    i > 0,
            ;
        }
        result = result / i;
        i = i + 1;
    }
    result
}

/// The Bernstein weights `C(n - 1, i)` for a curve of `n_points` control
/// points, one per control point in order.
pub fn bernstein_coefficients(n_points: usize) -> (r: Vec<i32>)
    requires
        1 <= n_points <= MAX_CURVE_POINTS,
    ensures
        r@.len() == n_points,
        forall|i: int| 0 <= i < n_points ==> r@[i] == binom((n_points - 1) as nat, i as nat),
{
    let n: i32 = (n_points - 1) as i32;
    let mut r: Vec<i32> = Vec::new();
    let mut i: i32 = 0;
    while i <= n
        invariant
            0 <= i <= n + 1,
            n == n_points - 1,
            n_points <= MAX_CURVE_POINTS,
            r@.len() == i,
            forall|j: int| 0 <= j < i ==> r@[j] == binom(n as nat, j as nat),
        decreases n + 1 - i,
    {
        proof {
            lemma_binom_le_pow2(n as nat, i as nat);
            lemma_pow2_mono(n as nat, 15);
            reveal_with_fuel(pow2, 16);
            assert(pow2(15) == 32768);
            assert(binom(n as nat, i as nat) * min_nat(i as nat, (n - i) as nat) <= 32768 * 15)
                by (nonlinear_arith)
                requires
                    binom(n as nat, i as nat) <= 32768,
                    min_nat(i as nat, (n - i) as nat) <= 15,
            ;
        }
        let c = binomial_coefficient(n, i);
        r.push(c);
        i = i + 1;
    }
    r
}

/// A curve of one or two control points weighs each of them by one: a
/// single point stands alone, and two points blend as a linear interpolation.
pub proof fn lemma_short_curve_weights(n_points: nat)
    requires
        1 <= n_points <= 2,
    ensures
        forall|i: nat| i < n_points ==> #[trigger] binom((n_points - 1) as nat, i) == 1,
{
    assert(binom(0, 0) == 1);
    assert(binom(1, 0) == 1);
    assert(binom(1, 1) == 1) by {
        assert(binom(0, 0) == 1);
        lemma_binom_zero_above(0, 1);
    }
}

} // verus!
