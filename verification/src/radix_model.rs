//! What the four digit passes of the radix sort achieve. A pass stably
//! reorders the keys by one 8-bit digit; after the passes at the digits the
//! plan assigns (shifts 0, 8, 16 and 24), the keys are in ascending order and
//! are a rearrangement of the input.
use vstd::prelude::*;
use vstd::arithmetic::div_mod::lemma_fundamental_div_mod_converse;
use crate::radix_sort::{RadixSorter, SortBuffers};

verus! {

/// `256` to the power `k`.
pub open spec fn radix_pow(k: nat) -> int
    decreases k,
{
    if k == 0 {
        1
    } else {
        256 * radix_pow((k - 1) as nat)
    }
}

/// Digit `k` (bits `8k .. 8k + 8`) of a key.
pub open spec fn digit(key: u32, k: nat) -> int {
    (key as int / radix_pow(k)) % 256
}

/// The key's `k` lowest digits, as a number.
pub open spec fn low_digits(key: u32, k: nat) -> int {
    key as int % radix_pow(k)
}

/// `s` is in ascending order of its `k` lowest digits.
pub open spec fn sorted_by_low_digits(s: Seq<u32>, k: nat) -> bool {
    forall|i: int, j: int| 0 <= i < j < s.len() ==> low_digits(s[i], k) <= low_digits(s[j], k)
}

/// `s` is in ascending order.
pub open spec fn sorted(s: Seq<u32>) -> bool {
    forall|i: int, j: int| 0 <= i < j < s.len() ==> s[i] <= s[j]
}

/// `p` maps the positions `0..n` one to one onto the positions `0..n`.
pub open spec fn is_permutation(p: Seq<int>, n: int) -> bool {
    &&& p.len() == n
    &&& forall|i: int| 0 <= i < n ==> 0 <= #[trigger] p[i] < n
    &&& forall|i: int, j: int| 0 <= i < j < n ==> p[i] != p[j]
}

/// `r` is `s` stably reordered by digit `k`, position `i` of `r` holding the
/// key from position `p[i]` of `s`: the digits ascend along `r`, and keys with
/// equal digits keep their relative order from `s`. This is what the histogram
/// and scatter steps of one pass compute.
pub open spec fn stable_digit_pass(s: Seq<u32>, r: Seq<u32>, p: Seq<int>, k: nat) -> bool {
    &&& r.len() == s.len()
    &&& is_permutation(p, s.len() as int)
    &&& forall|i: int| 0 <= i < r.len() ==> r[i] == s[#[trigger] p[i]]
    &&& forall|i: int, j: int| 0 <= i < j < r.len() ==> digit(r[i], k) <= digit(r[j], k)
    &&& forall|i: int, j: int|
        0 <= i < j < r.len() && digit(r[i], k) == digit(r[j], k) ==> p[i] < p[j]
}

proof fn lemma_radix_pow_positive(k: nat)
    ensures
        radix_pow(k) > 0,
    decreases k,
{
    if k > 0 {
        lemma_radix_pow_positive((k - 1) as nat);
    }
}

/// The `k + 1` lowest digits are digit `k` above the `k` lowest ones.
proof fn lemma_low_digits_split(x: u32, k: nat)
    ensures
        low_digits(x, k + 1) == digit(x, k) * radix_pow(k) + low_digits(x, k),
        0 <= low_digits(x, k) < radix_pow(k),
        0 <= digit(x, k) < 256,
{
    lemma_radix_pow_positive(k);
    let pk = radix_pow(k);
    let xi = x as int;
    let q = xi / pk;
    let r = xi % pk;
    let a = q / 256;
    let b = q % 256;
    assert(radix_pow(k + 1) == 256 * pk);
    assert(xi == pk * q + r && 0 <= r < pk && q >= 0) by (nonlinear_arith)
        requires pk > 0, q == xi / pk, r == xi % pk, xi >= 0;
    assert(q == 256 * a + b && 0 <= b < 256) by (nonlinear_arith)
        requires a == q / 256, b == q % 256, q >= 0;
    assert(xi == a * (256 * pk) + (b * pk + r) && 0 <= b * pk + r < 256 * pk) by (nonlinear_arith)
        requires xi == pk * q + r, q == 256 * a + b, 0 <= b < 256, 0 <= r < pk, pk > 0;
    lemma_fundamental_div_mod_converse(xi, 256 * pk, a, b * pk + r);
}

/// A stable pass by digit `k` over keys ordered by their `k` lowest digits
/// leaves them ordered by their `k + 1` lowest digits.
pub proof fn lemma_stable_pass_extends_order(s: Seq<u32>, r: Seq<u32>, p: Seq<int>, k: nat)
    requires
        sorted_by_low_digits(s, k),
        stable_digit_pass(s, r, p, k),
    ensures
        sorted_by_low_digits(r, k + 1),
{
    assert forall|i: int, j: int| 0 <= i < j < r.len() implies low_digits(r[i], k + 1) <= low_digits(
        r[j],
        k + 1,
    ) by {
        let a = r[i];
        let b = r[j];
        lemma_low_digits_split(a, k);
        lemma_low_digits_split(b, k);
        let pk = radix_pow(k);
        if digit(a, k) < digit(b, k) {
            assert(digit(a, k) * pk + low_digits(a, k) < digit(b, k) * pk) by (nonlinear_arith)
                requires
                    digit(a, k) < digit(b, k),
                    0 <= low_digits(a, k) < pk,
            ;
        } else {
            assert(digit(a, k) == digit(b, k));
            assert(p[i] < p[j]);
            assert(a == s[p[i]] && b == s[p[j]]);
            assert(low_digits(s[p[i]], k) <= low_digits(s[p[j]], k));
        }
    }
}

/// The composition of position maps: position `i` takes from `outer[i]` of
/// the middle sequence, which took from `inner[outer[i]]` of the first.
pub open spec fn compose(inner: Seq<int>, outer: Seq<int>) -> Seq<int> {
    Seq::new(outer.len(), |i: int| inner[outer[i]])
}

proof fn lemma_compose_permutation(inner: Seq<int>, outer: Seq<int>, n: int)
    requires
        is_permutation(inner, n),
        is_permutation(outer, n),
    ensures
        is_permutation(compose(inner, outer), n),
{
    let c = compose(inner, outer);
    assert forall|i: int| 0 <= i < n implies 0 <= #[trigger] c[i] < n by {
        assert(0 <= outer[i] < n);
    }
    assert forall|i: int, j: int| 0 <= i < j < n implies c[i] != c[j] by {
        assert(0 <= outer[i] < n && 0 <= outer[j] < n);
        if outer[i] < outer[j] {
            assert(inner[outer[i]] != inner[outer[j]]);
        } else {
            assert(outer[i] != outer[j]);
            assert(inner[outer[j]] != inner[outer[i]]);
        }
    }
}

/// Four stable passes, by the digits that the plan's passes 0 to 3 select
/// (shifts 0, 8, 16 and 24), leave the keys in ascending order, each output
/// position holding the key of a distinct input position.
pub proof fn lemma_four_passes_sort(
    plan: RadixSorter,
    ids: SortBuffers,
    s0: Seq<u32>,
    s1: Seq<u32>,
    s2: Seq<u32>,
    s3: Seq<u32>,
    s4: Seq<u32>,
    p1: Seq<int>,
    p2: Seq<int>,
    p3: Seq<int>,
    p4: Seq<int>,
)
    requires
        stable_digit_pass(s0, s1, p1, (plan.sort_pc(ids, 0).shift / 8) as nat),
        stable_digit_pass(s1, s2, p2, (plan.sort_pc(ids, 1).shift / 8) as nat),
        stable_digit_pass(s2, s3, p3, (plan.sort_pc(ids, 2).shift / 8) as nat),
        stable_digit_pass(s3, s4, p4, (plan.sort_pc(ids, 3).shift / 8) as nat),
    ensures
        sorted(s4),
        s4.len() == s0.len(),
        is_permutation(compose(p1, compose(p2, compose(p3, p4))), s0.len() as int),
        forall|i: int|
            0 <= i < s4.len() ==> s4[i] == s0[#[trigger] compose(p1, compose(p2, compose(p3, p4)))[i]],
{
    assert(plan.sort_pc(ids, 0).shift / 8 == 0);
    assert(plan.sort_pc(ids, 1).shift / 8 == 1);
    assert(plan.sort_pc(ids, 2).shift / 8 == 2);
    assert(plan.sort_pc(ids, 3).shift / 8 == 3);
    assert(sorted_by_low_digits(s0, 0)) by {
        assert(radix_pow(0) == 1);
        assert forall|x: u32| #[trigger] low_digits(x, 0) == 0 by {}
    }
    lemma_stable_pass_extends_order(s0, s1, p1, 0);
    lemma_stable_pass_extends_order(s1, s2, p2, 1);
    lemma_stable_pass_extends_order(s2, s3, p3, 2);
    lemma_stable_pass_extends_order(s3, s4, p4, 3);
    assert(radix_pow(4) == 0x1_0000_0000) by {
        assert(radix_pow(0) == 1);
        assert(radix_pow(1) == 256);
        assert(radix_pow(2) == 65536);
        assert(radix_pow(3) == 16777216);
    }
    assert forall|i: int, j: int| 0 <= i < j < s4.len() implies s4[i] <= s4[j] by {
        assert(low_digits(s4[i], 4) == s4[i] as int);
        assert(low_digits(s4[j], 4) == s4[j] as int);
    }
    let n = s0.len() as int;
    lemma_compose_permutation(p3, p4, n);
    lemma_compose_permutation(p2, compose(p3, p4), n);
    lemma_compose_permutation(p1, compose(p2, compose(p3, p4)), n);
    let q = compose(p1, compose(p2, compose(p3, p4)));
    assert forall|i: int| 0 <= i < s4.len() implies s4[i] == s0[#[trigger] q[i]] by {
        let i3 = p4[i];
        let i2 = p3[i3];
        let i1 = p2[i2];
        assert(s4[i] == s3[p4[i]]);
        assert(0 <= i3 < n);
        assert(s3[i3] == s2[p3[i3]]);
        assert(0 <= i2 < n);
        assert(s2[i2] == s1[p2[i2]]);
        assert(0 <= i1 < n);
        assert(s1[i1] == s0[p1[i1]]);
        assert(compose(p3, p4)[i] == i2);
        assert(compose(p2, compose(p3, p4))[i] == i1);
    }
}

} // verus!
