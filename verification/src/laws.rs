use vstd::prelude::*;

use vstd::bits::{lemma_u64_pow2_no_overflow, lemma_u64_shl_is_mul};

use crate::bits::{
    bit, has_bit, lemma_distinct_powers_disjoint, lemma_power_of_two_nonzero, lemma_max_of, lemma_no_bits_zero,
    lemma_or_all_bits, lemma_or_all_covers, max_of, or_all, power_of_two,
};
use vstd::std_specs::cmp::PartialEqSpec;

use crate::error::FlagsError;
use crate::expand::{
    auto_backing, check_variant_spec, check_variants, outcome, struct_name_of, Backing, FlagsPlan,
    ItemBody, ItemInput, VariantInput,
};
use crate::expr::{
    digit_value, digits_value, eval_spec, literal_digits, literal_radix, plain_int_literal, plain_literal_value,
    without_separators, DiscExpr,
};
use crate::flagset::{Flag, FlagSet, IntoFlagSet};

verus! {

/// `contains(flags)` holds exactly when every bit of `flags` is set in the set.
pub proof fn law_contains_is_inclusion(set: u64, flags: u64)
    ensures
        (set & flags == flags) <==> forall|i: u64|
            i < 64 ==> (#[trigger] has_bit(flags, i) ==> has_bit(set, i)),
{
    if set & flags == flags {
        assert forall|i: u64| i < 64 && #[trigger] has_bit(flags, i) implies has_bit(set, i) by {
            let b = bit(i);
            assert(set & b != 0) by (bit_vector)
                requires
                    set & flags == flags,
                    flags & b != 0,
            ;
        }
    }
    if forall|i: u64| i < 64 ==> (#[trigger] has_bit(flags, i) ==> has_bit(set, i)) {
        let d = flags & !set;
        assert forall|i: u64| i < 64 implies !#[trigger] has_bit(d, i) by {
            let b = bit(i);
            assert(d & b != 0 ==> flags & b != 0 && set & b == 0) by (bit_vector)
                requires
                    d == flags & !set,
                    i < 64,
                    b == 1u64 << i,
            ;
            if has_bit(d, i) {
                assert(has_bit(flags, i));
            }
        }
        lemma_no_bits_zero(d);
        assert(set & flags == flags) by (bit_vector)
            requires
                d == flags & !set,
                d == 0,
        ;
    }
}

/// `contains_any(flags)` holds exactly when the set and `flags` share a bit.
pub proof fn law_contains_any_is_overlap(set: u64, flags: u64)
    ensures
        (set & flags != 0) <==> exists|i: u64|
            i < 64 && #[trigger] has_bit(set, i) && has_bit(flags, i),
{
    let c = set & flags;
    if c != 0 {
        if !exists|i: u64| i < 64 && #[trigger] has_bit(set, i) && has_bit(flags, i) {
            assert forall|i: u64| i < 64 implies !#[trigger] has_bit(c, i) by {
                let b = bit(i);
                assert(c & b != 0 ==> set & b != 0 && flags & b != 0) by (bit_vector)
                    requires
                        c == set & flags,
                ;
                if has_bit(c, i) {
                    assert(has_bit(set, i) && has_bit(flags, i));
                }
            }
            lemma_no_bits_zero(c);
        }
    }
    if exists|i: u64| i < 64 && #[trigger] has_bit(set, i) && has_bit(flags, i) {
        let i = choose|i: u64| i < 64 && #[trigger] has_bit(set, i) && has_bit(flags, i);
        assert(c != 0) by (bit_vector)
            requires
                c == set & flags,
                i < 64,
                set & (1u64 << i) != 0,
                flags & (1u64 << i) != 0,
        ;
    }
}

/// `is_disjoint(flags)` holds exactly when the set and `flags` share no bit,
/// that is, exactly when `contains_any(flags)` does not.
pub proof fn law_disjoint_is_no_shared_bit(set: u64, flags: u64)
    ensures
        (set & flags == 0) <==> forall|i: u64|
            i < 64 ==> !(#[trigger] has_bit(set, i) && has_bit(flags, i)),
        (set & flags == 0) <==> !(set & flags != 0),
{
    law_contains_any_is_overlap(set, flags);
}

/// After `set(flags)`, the set contains `flags` and still contains all it contained.
pub proof fn law_set_adds(set: u64, flags: u64, other: u64)
    ensures
        (set | flags) & flags == flags,
        set & other == other ==> (set | flags) & other == other,
{
    assert((set | flags) & flags == flags) by (bit_vector);
    assert(set & other == other ==> (set | flags) & other == other) by (bit_vector);
}

/// After `unset(flags)`, no bit of `flags` is left, and every bit outside
/// `flags` is as it was.
pub proof fn law_unset_removes(set: u64, flags: u64, other: u64)
    ensures
        (set & !flags) & flags == 0,
        other & flags == 0 ==> (set & !flags) & other == set & other,
{
    assert((set & !flags) & flags == 0) by (bit_vector);
    assert(other & flags == 0 ==> (set & !flags) & other == set & other) by (bit_vector);
}

/// `unset(flags)` does nothing when none of `flags` is set.
pub proof fn law_unset_absent_is_noop(set: u64, flags: u64)
    requires
        set & flags == 0,
    ensures
        set & !flags == set,
{
    assert(set & !flags == set) by (bit_vector)
        requires
            set & flags == 0,
    ;
}

/// `unset(flags)` undoes `set(flags)` when none of `flags` was set before.
pub proof fn law_unset_undoes_set(set: u64, flags: u64)
    requires
        set & flags == 0,
    ensures
        (set | flags) & !flags == set,
{
    assert((set | flags) & !flags == set) by (bit_vector)
        requires
            set & flags == 0,
    ;
}

/// Toggling the same flags twice restores the set.
pub proof fn law_toggle_twice(set: u64, flags: u64)
    ensures
        (set ^ flags) ^ flags == set,
{
    assert((set ^ flags) ^ flags == set) by (bit_vector);
}

/// `!set` holds exactly the variants' bits that `set` lacks: it shares no
/// bit with `set`, the two together make up `all`, and `!` undoes itself.
pub proof fn law_not_complements(set: u64, all: u64)
    requires
        set & all == set,
    ensures
        (!set & all) & set == 0,
        set | (!set & all) == all,
        !(!set & all) & all == set,
{
    assert((!set & all) & set == 0) by (bit_vector);
    assert(set | (!set & all) == all) by (bit_vector)
        requires
            set & all == set,
    ;
    assert(!(!set & all) & all == set) by (bit_vector)
        requires
            set & all == set,
    ;
}

/// `from_bits` keeps exactly the bits of the value that belong to a variant,
/// and applying it again changes nothing.
pub proof fn law_from_bits_masks(value: u64, all: u64)
    ensures
        (value & all) & all == value & all,
        forall|i: u64|
            i < 64 ==> (#[trigger] has_bit(value & all, i) <==> has_bit(value, i) && has_bit(all, i)),
{
    assert forall|i: u64| i < 64 implies (#[trigger] has_bit(value & all, i) <==> has_bit(value, i)
        && has_bit(all, i)) by {
        let b = bit(i);
        assert((value & all) & b != 0 <==> value & b != 0 && all & b != 0) by (bit_vector)
            requires
                i < 64,
                b == 1u64 << i,
        ;
    }
    assert((value & all) & all == value & all) by (bit_vector);
}

/// The empty set is disjoint from everything; `all` meets every non-empty set
/// of the enum's flags and contains it.
pub proof fn law_empty_and_all(flags: u64, all: u64)
    ensures
        0u64 & flags == 0,
        flags & all == flags ==> all & flags == flags,
        flags & all == flags && flags != 0 ==> all & flags != 0,
{
    assert(0u64 & flags == 0) by (bit_vector);
    assert(flags & all == flags ==> all & flags == flags) by (bit_vector);
}

/// Every variant of an accepted enum lies within `all`.
pub proof fn law_variants_within_all(plan: FlagsPlan, i: int)
    requires
        plan.wf(),
        0 <= i < plan.values@.len(),
    ensures
        plan.values@[i] & plan.all == plan.values@[i],
{
    lemma_or_all_covers(plan.values@, i);
}

/// `all` sets no bit that no variant sets.
pub proof fn law_all_bits_from_variants(plan: FlagsPlan, k: u64)
    requires
        plan.wf(),
        k < 64,
        has_bit(plan.all, k),
    ensures
        exists|i: int| 0 <= i < plan.values@.len() && #[trigger] has_bit(plan.values@[i], k),
{
    lemma_or_all_bits(plan.values@, k);
}

/// Variants of an accepted enum with different values share no bit.
pub proof fn law_variants_disjoint(plan: FlagsPlan, i: int, j: int)
    requires
        plan.wf(),
        0 <= i < plan.values@.len(),
        0 <= j < plan.values@.len(),
        plan.values@[i] != plan.values@[j],
    ensures
        plan.values@[i] & plan.values@[j] == 0,
{
    lemma_distinct_powers_disjoint(plan.values@[i], plan.values@[j]);
}

/// One past the largest value a standard backing type holds.
pub open spec fn backing_limit(b: Backing) -> int {
    match b {
        Backing::U8 => 0x100,
        Backing::U16 => 0x1_0000,
        Backing::U32 => 0x1_0000_0000,
        _ => 0x1_0000_0000_0000_0000,
    }
}

/// The chosen backing type holds the largest value, and it is the narrowest
/// of `u8`, `u16`, `u32`, `u64` that does.
pub proof fn law_auto_backing_is_narrowest(max: u64, other: Backing)
    requires
        !(other is Given),
    ensures
        max < backing_limit(auto_backing(max)),
        max < backing_limit(other) ==> backing_limit(auto_backing(max)) <= backing_limit(other),
{
}

proof fn lemma_or_below(a: u64, b: u64, w: u64)
    requires
        w < 64,
        a < (1u64 << w),
        b < (1u64 << w),
    ensures
        (a | b) < (1u64 << w),
{
    assert((a | b) < (1u64 << w)) by (bit_vector)
        requires
            w < 64,
            a < (1u64 << w),
            b < (1u64 << w),
    ;
}

proof fn lemma_or_all_below(s: Seq<u64>, w: u64)
    requires
        w < 64,
        forall|i: int| 0 <= i < s.len() ==> #[trigger] s[i] < (1u64 << w),
    ensures
        or_all(s) < (1u64 << w),
    decreases s.len(),
{
    if s.len() == 0 {
        assert(0u64 < (1u64 << w)) by (bit_vector)
            requires
                w < 64,
        ;
    } else {
        assert forall|i: int| 0 <= i < s.drop_last().len() implies #[trigger] s.drop_last()[i] < (
        1u64 << w) by {
            assert(s.drop_last()[i] == s[i]);
        }
        lemma_or_all_below(s.drop_last(), w);
        assert(s.last() == s[s.len() - 1]);
        lemma_or_below(or_all(s.drop_last()), s.last(), w);
    }
}

/// With the backing type chosen from the largest value, `all` fits in it too.
pub proof fn law_all_fits_backing(values: Seq<u64>)
    ensures
        or_all(values) < backing_limit(auto_backing(max_of(values))),
{
    lemma_max_of(values);
    let max = max_of(values);
    let b = auto_backing(max);
    if b != Backing::U64 {
        let w: u64 = if b == Backing::U8 {
            8
        } else if b == Backing::U16 {
            16
        } else {
            32
        };
        assert(backing_limit(b) == (1u64 << w)) by {
            assert(1u64 << 8u64 == 0x100) by (bit_vector);
            assert(1u64 << 16u64 == 0x1_0000) by (bit_vector);
            assert(1u64 << 32u64 == 0x1_0000_0000) by (bit_vector);
        }
        lemma_or_all_below(values, w);
    }
}

/// `1 << n` with `n < 64` evaluates to the single bit `n`, a power of two.
pub proof fn law_shift_of_one(left: DiscExpr, right: DiscExpr, id: usize, n: u64)
    requires
        eval_spec(left) == Ok::<u64, FlagsError>(1),
        eval_spec(right) == Ok::<u64, FlagsError>(n),
        n < 64,
    ensures
        eval_spec(DiscExpr::Shl { left: Box::new(left), right: Box::new(right), id }) == Ok::<
            u64,
            FlagsError,
        >(bit(n)),
        power_of_two(bit(n)),
{
    lemma_u64_pow2_no_overflow(n as nat);
    lemma_u64_shl_is_mul(1, n);
}

/// A variant and a flag set are equal, in either order, exactly when the set's
/// raw bits are the variant's discriminant.
pub proof fn law_variant_equals_set_iff_same_bits<const ALL: u64>(flag: Flag<ALL>, set: FlagSet<ALL>)
    ensures
        PartialEqSpec::eq_spec(&flag, &set) <==> set@ == flag@,
        PartialEqSpec::eq_spec(&set, &flag) <==> set@ == flag@,
{
}

/// A set that holds a variant together with another variant is not equal to
/// that variant, in either order.
pub proof fn law_variant_differs_from_larger_set<const ALL: u64>(
    flag: Flag<ALL>,
    other: Flag<ALL>,
    set: FlagSet<ALL>,
)
    requires
        power_of_two(flag@),
        power_of_two(other@),
        other@ != flag@,
        set@ == flag@ | other@,
    ensures
        !PartialEqSpec::eq_spec(&flag, &set),
        !PartialEqSpec::eq_spec(&set, &flag),
{
    lemma_distinct_powers_disjoint(flag@, other@);
    lemma_power_of_two_nonzero(other@);
    let a = flag@;
    let b = other@;
    assert((a | b) != a) by (bit_vector)
        requires
            a & b == 0,
            b != 0,
    ;
}

/// A raw integer used as flags stands for exactly its bits that some variant
/// has: bit `i` belongs to it iff bit `i` is set in both the integer and `ALL`.
pub proof fn law_raw_integer_stands_for_known_bits<const ALL: u64>(value: u64)
    ensures
        forall|i: u64|
            i < 64 ==> (#[trigger] has_bit(<u64 as IntoFlagSet<ALL>>::flag_bits(&value), i) <==> has_bit(
                value,
                i,
            ) && has_bit(ALL, i)),
{
    law_from_bits_masks(value, ALL);
}

/// The flag set's name is the enum's name, without a leading `r#`, followed by
/// `Flags`: five characters longer than that, ending in `Flags`, and never the
/// enum's own name.
pub proof fn law_struct_name_appends_flags(name: Seq<char>)
    ensures
        ({
            let base = if name.len() >= 2 && name[0] == 'r' && name[1] == '#' {
                name.skip(2)
            } else {
                name
            };
            let r = struct_name_of(name);
            &&& r.len() == base.len() + 5
            &&& r.subrange(0, base.len() as int) == base
            &&& r[r.len() - 5] == 'F'
            &&& r[r.len() - 4] == 'l'
            &&& r[r.len() - 3] == 'a'
            &&& r[r.len() - 2] == 'g'
            &&& r[r.len() - 1] == 's'
        }),
        struct_name_of(name) != name,
{
    reveal_strlit("Flags");
    let base = if name.len() >= 2 && name[0] == 'r' && name[1] == '#' {
        name.skip(2)
    } else {
        name
    };
    let r = struct_name_of(name);
    assert(r.subrange(0, base.len() as int) =~= base);
    assert(r.len() != name.len());
}

/// A unit variant whose discriminant evaluates to a single bit `1 << k`, any
/// `k < 64`, is accepted with that value.
pub proof fn law_single_bit_variant_accepted(v: VariantInput, index: int, k: u64)
    requires
        k < 64,
        v.is_unit,
        v.discriminant matches Some(e) && eval_spec(e) == Ok::<u64, FlagsError>(1u64 << k),
    ensures
        check_variant_spec(v, index) == Ok::<u64, FlagsError>(1u64 << k),
{
    assert(power_of_two(1u64 << k)) by {
        assert((1u64 << k) == bit(k));
    }
}

/// An enum whose variants are all unit variants with single-bit discriminants
/// is accepted, with exactly those values in declaration order.
pub proof fn law_single_bit_enum_accepted(input: ItemInput, values: Seq<u64>)
    requires
        input.body matches ItemBody::Enum(vs) && {
            &&& vs@.len() == values.len()
            &&& forall|i: int|
                0 <= i < values.len() ==> {
                    &&& (#[trigger] vs@[i]).is_unit
                    &&& vs@[i].discriminant matches Some(e) && eval_spec(e) == Ok::<
                        u64,
                        FlagsError,
                    >(values[i])
                    &&& exists|k: u64| k < 64 && values[i] == 1u64 << k
                }
        },
        values.len() > 0,
    ensures
        outcome(input) == Ok::<Seq<u64>, FlagsError>(values),
{
    let vs = input.body->Enum_0@;
    lemma_single_bit_prefix(vs, values, vs.len() as int);
    assert(vs.take(vs.len() as int) =~= vs);
    assert(values.take(values.len() as int) =~= values);
}

proof fn lemma_single_bit_prefix(vs: Seq<VariantInput>, values: Seq<u64>, n: int)
    requires
        0 <= n <= vs.len(),
        vs.len() == values.len(),
        forall|i: int|
            0 <= i < values.len() ==> {
                &&& (#[trigger] vs[i]).is_unit
                &&& vs[i].discriminant matches Some(e) && eval_spec(e) == Ok::<u64, FlagsError>(
                    values[i],
                )
                &&& exists|k: u64| k < 64 && values[i] == 1u64 << k
            },
    ensures
        check_variants(vs.take(n)) == Ok::<Seq<u64>, FlagsError>(values.take(n)),
    decreases n,
{
    if n == 0 {
        assert(vs.take(0) =~= Seq::<VariantInput>::empty());
        assert(values.take(0) =~= Seq::<u64>::empty());
    } else {
        lemma_single_bit_prefix(vs, values, n - 1);
        assert(vs.take(n).drop_last() =~= vs.take(n - 1));
        assert(values.take(n) =~= values.take(n - 1).push(values[n - 1]));
        let v = vs[n - 1];
        assert(v.is_unit);
        let k = choose|k: u64| k < 64 && values[n - 1] == 1u64 << k;
        law_single_bit_variant_accepted(v, n - 1, k);
        assert(vs.take(n).last() == v);
    }
}

proof fn lemma_separators_skipped(s: Seq<char>, radix: int)
    ensures
        digits_value(s, radix) == digits_value(without_separators(s), radix),
    decreases s.len(),
{
    if s.len() > 0 {
        lemma_separators_skipped(s.drop_last(), radix);
        if s.last() != '_' {
            let w = without_separators(s.drop_last()).push(s.last());
            assert(w.drop_last() =~= without_separators(s.drop_last()));
        }
    }
}

/// The value of a plain integer literal does not depend on where its `_`
/// separators stand: two literals of the same radix with the same digits
/// denote the same number (`0b0000_0001`, `0b00000001` and `0b1_` alike).
pub proof fn law_separators_do_not_change_value(a: Seq<char>, b: Seq<char>)
    requires
        plain_int_literal(a),
        plain_int_literal(b),
        literal_radix(a) == literal_radix(b),
        without_separators(literal_digits(a)) == without_separators(literal_digits(b)),
    ensures
        plain_literal_value(a) == plain_literal_value(b),
{
    lemma_separators_skipped(literal_digits(a), literal_radix(a));
    lemma_separators_skipped(literal_digits(b), literal_radix(b));
}

/// Leading zeros do not change the value of a plain integer literal.
pub proof fn law_leading_zero_does_not_change_value(digits: Seq<char>, radix: int)
    ensures
        digits_value(seq!['0'].add(digits), radix) == digits_value(digits, radix),
    decreases digits.len(),
{
    if digits.len() == 0 {
        assert(seq!['0'].add(digits) =~= seq!['0']);
        assert(seq!['0'].drop_last() =~= Seq::<char>::empty());
        assert('0' as int == 48);
        assert(digit_value('0') == 0);
        assert(digits_value(Seq::<char>::empty(), radix) == 0);
        assert(0 * radix == 0);
    } else {
        let z = seq!['0'].add(digits);
        assert(z.drop_last() =~= seq!['0'].add(digits.drop_last()));
        assert(z.last() == digits.last());
        law_leading_zero_does_not_change_value(digits.drop_last(), radix);
    }
}

} // verus!
