use vstd::prelude::*;

verus! {

/// The `u64` with only bit `k` set.
pub open spec fn bit(k: u64) -> u64 {
    1u64 << k
}

/// `v` is `2^k` for some `k < 64`.
pub open spec fn power_of_two(v: u64) -> bool {
    exists|k: u64| k < 64 && v == #[trigger] bit(k)
}

/// Bit `i` of `x` is set.
pub open spec fn has_bit(x: u64, i: u64) -> bool {
    x & bit(i) != 0
}

/// The bitwise or of every value of `s`.
pub open spec fn or_all(s: Seq<u64>) -> u64
    decreases s.len(),
{
    if s.len() == 0 {
        0
    } else {
        or_all(s.drop_last()) | s.last()
    }
}

/// The largest value of `s`, or `0` for an empty `s`.
pub open spec fn max_of(s: Seq<u64>) -> u64
    decreases s.len(),
{
    if s.len() == 0 {
        0
    } else if s.last() > max_of(s.drop_last()) {
        s.last()
    } else {
        max_of(s.drop_last())
    }
}

/// The `u64` with bits `0..n` set.
pub open spec fn low_mask(n: u64) -> u64 {
    if n >= 64 {
        0xffff_ffff_ffff_ffffu64
    } else {
        ((1u64 << n) - 1u64) as u64
    }
}

proof fn lemma_low_mask_step(x: u64, k: u64)
    requires
        k < 64,
    ensures
        x & low_mask((k + 1) as u64) == (x & low_mask(k)) | (x & bit(k)),
{
    let k1 = (k + 1) as u64;
    assert(x & (if k1 >= 64 { 0xffff_ffff_ffff_ffffu64 } else { ((1u64 << k1) - 1u64) as u64 })
        == (x & (if k >= 64 { 0xffff_ffff_ffff_ffffu64 } else { ((1u64 << k) - 1u64) as u64 })) | (x
        & (1u64 << k))) by (bit_vector)
        requires
            k < 64,
            k1 == k + 1,
    ;
}

proof fn lemma_no_low_bits(x: u64, n: u64)
    requires
        n <= 64,
        forall|i: u64| i < n ==> !#[trigger] has_bit(x, i),
    ensures
        x & low_mask(n) == 0,
    decreases n,
{
    if n == 0 {
        assert(x & (((1u64 << 0u64) - 1u64) as u64) == 0) by (bit_vector);
        assert(low_mask(0) == ((1u64 << 0u64) - 1u64) as u64);
    } else {
        let k = (n - 1) as u64;
        lemma_no_low_bits(x, k);
        lemma_low_mask_step(x, k);
        assert(!has_bit(x, k));
        let a = x & low_mask(k);
        let b = x & bit(k);
        assert(a | b == 0) by (bit_vector)
            requires
                a == 0,
                b == 0,
        ;
        assert(n == (k + 1) as u64);
    }
}

/// A `u64` without a set bit is zero.
pub proof fn lemma_no_bits_zero(x: u64)
    requires
        forall|i: u64| i < 64 ==> !#[trigger] has_bit(x, i),
    ensures
        x == 0,
{
    lemma_no_low_bits(x, 64);
    assert(x & 0xffff_ffff_ffff_ffffu64 == x) by (bit_vector);
}

/// Whether `v` is a power of two.
pub fn is_power_of_two(v: u64) -> (r: bool)
    ensures
        r == power_of_two(v),
{
    let mut k: u64 = 0;
    while k < 64
        invariant
            k <= 64,
            forall|j: u64| j < k ==> v != #[trigger] bit(j),
        decreases 64 - k,
    {
        if v == 1u64 << k {
            assert(v == bit(k));
            return true;
        }
        k = k + 1;
    }
    false
}

/// Two different single bits share nothing.
pub proof fn lemma_distinct_bits_disjoint(i: u64, j: u64)
    requires
        i < 64,
        j < 64,
        i != j,
    ensures
        bit(i) & bit(j) == 0,
{
    assert((1u64 << i) & (1u64 << j) == 0) by (bit_vector)
        requires
            i < 64,
            j < 64,
            i != j,
    ;
}

/// Two different powers of two share no bit.
pub proof fn lemma_distinct_powers_disjoint(a: u64, b: u64)
    requires
        power_of_two(a),
        power_of_two(b),
        a != b,
    ensures
        a & b == 0,
{
    let i = choose|k: u64| k < 64 && a == #[trigger] bit(k);
    let j = choose|k: u64| k < 64 && b == #[trigger] bit(k);
    lemma_distinct_bits_disjoint(i, j);
}

/// A power of two is not zero.
pub proof fn lemma_power_of_two_nonzero(a: u64)
    requires
        power_of_two(a),
    ensures
        a != 0,
{
    let i = choose|k: u64| k < 64 && a == #[trigger] bit(k);
    assert(1u64 << i != 0) by (bit_vector)
        requires
            i < 64,
    ;
}

/// Every value of `s` lies within the or of all of them.
pub proof fn lemma_or_all_covers(s: Seq<u64>, i: int)
    requires
        0 <= i < s.len(),
    ensures
        s[i] & or_all(s) == s[i],
    decreases s.len(),
{
    let rest = or_all(s.drop_last());
    let last = s.last();
    if i == s.len() - 1 {
        assert(last & (rest | last) == last) by (bit_vector);
    } else {
        lemma_or_all_covers(s.drop_last(), i);
        let x = s[i];
        assert(x & (rest | last) == x) by (bit_vector)
            requires
                x & rest == x,
        ;
    }
}

/// The or of all values of `s` has no bit that none of them has.
pub proof fn lemma_or_all_bits(s: Seq<u64>, k: u64)
    requires
        k < 64,
        has_bit(or_all(s), k),
    ensures
        exists|i: int| 0 <= i < s.len() && #[trigger] has_bit(s[i], k),
    decreases s.len(),
{
    if s.len() == 0 {
        assert(0u64 & (1u64 << k) == 0) by (bit_vector);
    } else {
        let rest = or_all(s.drop_last());
        let last = s.last();
        let b = bit(k);
        assert((rest | last) & b != 0 ==> rest & b != 0 || last & b != 0) by (bit_vector);
        if has_bit(last, k) {
            assert(has_bit(s[s.len() - 1], k));
        } else {
            lemma_or_all_bits(s.drop_last(), k);
            let i = choose|i: int| 0 <= i < s.drop_last().len() && #[trigger] has_bit(s.drop_last()[i], k);
            assert(has_bit(s[i], k));
        }
    }
}

/// The largest value is one of the values, and no value exceeds it.
pub proof fn lemma_max_of(s: Seq<u64>)
    ensures
        forall|i: int| 0 <= i < s.len() ==> s[i] <= max_of(s),
        s.len() > 0 ==> exists|i: int| 0 <= i < s.len() && s[i] == max_of(s),
    decreases s.len(),
{
    if s.len() > 0 {
        lemma_max_of(s.drop_last());
        assert forall|i: int| 0 <= i < s.len() implies s[i] <= max_of(s) by {
            if i < s.len() - 1 {
                assert(s[i] == s.drop_last()[i]);
            }
        }
        if s.last() > max_of(s.drop_last()) {
            assert(s[s.len() - 1] == max_of(s));
        } else if s.len() == 1 {
            assert(s[0] == max_of(s));
        } else {
            let i = choose|i: int| 0 <= i < s.drop_last().len() && s.drop_last()[i] == max_of(s.drop_last());
            assert(s[i] == max_of(s));
        }
    }
}

} // verus!
