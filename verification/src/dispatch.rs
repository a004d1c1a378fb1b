use vstd::prelude::*;

verus! {

/// Workgroup size of every one-dimensional compute pass.
pub const WORKGROUP_SIZE: u32 = 256;

/// The smallest `q` with `q * d >= n`: the ceiling of `n / d`.
pub open spec fn ceil_div(n: int, d: int) -> int
    recommends
        d > 0,
{
    (n + d - 1) / d
}

/// Ceiling division, `u32::div_ceil`: how many groups of `d` cover `n` items.
pub fn div_ceil_u32(n: u32, d: u32) -> (q: u32)
    requires
        d > 0,
    ensures
        q == ceil_div(n as int, d as int),
        q * d >= n,
        q == 0 || (q - 1) * d < n,
{
    let q = n / d;
    let r = n % d;
    proof {
        assert(n == q * d + r) by (nonlinear_arith)
            requires q == n / d, r == n % d, d > 0;
        assert(r != 0 ==> q < u32::MAX) by (nonlinear_arith)
            requires n == q * d + r, 0 <= r < d, n <= u32::MAX, q >= 0;
    }
    let res: u32 = if r == 0 { q } else { q + 1 };
    proof {
        assert(n == q * d + r) by (nonlinear_arith)
            requires q == n / d, r == n % d, d > 0;
        assert(res == ceil_div(n as int, d as int)) by (nonlinear_arith)
            requires n == q * d + r, 0 <= r < d, res == (if r == 0 { q as int } else { q + 1 }), d > 0;
        assert(res * d >= n) by (nonlinear_arith)
            requires n == q * d + r, 0 <= r < d, res == (if r == 0 { q as int } else { q + 1 }), d > 0;
        assert(res == 0 || (res - 1) * d < n) by (nonlinear_arith)
            requires n == q * d + r, 0 <= r < d, res == (if r == 0 { q as int } else { q + 1 }), d > 0;
    }
    res
}

/// `ceil_div(n, d)` groups of `d` cover `n` items, and one group fewer would not.
pub proof fn lemma_ceil_div_covers(n: int, d: int)
    requires
        n >= 0,
        d > 0,
    ensures
        ceil_div(n, d) >= 0,
        ceil_div(n, d) * d >= n,
        (ceil_div(n, d) - 1) * d < n,
{
    assert(ceil_div(n, d) >= 0 && ceil_div(n, d) * d >= n && (ceil_div(n, d) - 1) * d < n)
        by (nonlinear_arith)
        requires
            n >= 0,
            d > 0,
            ceil_div(n, d) == (n + d - 1) / d,
    ;
}

} // verus!
