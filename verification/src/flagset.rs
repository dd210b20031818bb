use vstd::prelude::*;
use vstd::std_specs::cmp::PartialEqSpecImpl;
use vstd::std_specs::convert::FromSpecImpl;
use vstd::std_specs::ops::{BitAndSpecImpl, BitOrSpecImpl, BitXorSpecImpl, NotSpecImpl};

use crate::bits::{is_power_of_two, power_of_two};

verus! {

/// One variant of a flag enum whose variants together set the bits of `ALL`:
/// a single bit within `ALL`.
#[derive(Clone, Copy, Debug)]
pub struct Flag<const ALL: u64> {
    bit: u64,
}

/// A set of flags of the enum whose variants together set the bits of `ALL`:
/// the `{Enum}Flags` type. It never holds a bit outside `ALL`.
#[derive(Clone, Copy, Debug)]
pub struct FlagSet<const ALL: u64> {
    bits: u64,
}

impl<const ALL: u64> Flag<ALL> {
    #[verifier::type_invariant]
    spec fn single_bit_within(self) -> bool {
        &&& power_of_two(self.bit)
        &&& self.bit & ALL == self.bit
    }
}

impl<const ALL: u64> FlagSet<ALL> {
    #[verifier::type_invariant]
    spec fn within_all(self) -> bool {
        self.bits & ALL == self.bits
    }
}

impl<const ALL: u64> View for Flag<ALL> {
    type V = u64;

    /// The variant's discriminant.
    closed spec fn view(&self) -> u64 {
        self.bit
    }
}

impl<const ALL: u64> View for FlagSet<ALL> {
    type V = u64;

    /// The raw bits of the set.
    closed spec fn view(&self) -> u64 {
        self.bits
    }
}

/// A value that stands for a set of flags of one enum: a variant, or a set.
pub trait IntoFlagSet<const ALL: u64>: Copy {
    /// The bits that the value stands for.
    spec fn flag_bits(&self) -> u64;

    fn into_flag_set(self) -> (r: FlagSet<ALL>)
        ensures
            r@ == self.flag_bits(),
    ;
}

proof fn lemma_zero_within(m: u64)
    ensures
        0u64 & m == 0u64,
{
    assert(0u64 & m == 0u64) by (bit_vector);
}

proof fn lemma_mask_within(m: u64)
    ensures
        m & m == m,
{
    assert(m & m == m) by (bit_vector);
}

proof fn lemma_masked_within(v: u64, m: u64)
    ensures
        (v & m) & m == v & m,
{
    assert((v & m) & m == v & m) by (bit_vector);
}

proof fn lemma_not_within(v: u64, m: u64)
    ensures
        (!v & m) & m == !v & m,
{
    assert((!v & m) & m == !v & m) by (bit_vector);
}

proof fn lemma_ops_within(a: u64, b: u64, m: u64)
    requires
        a & m == a,
        b & m == b,
    ensures
        (a | b) & m == (a | b),
        (a & b) & m == (a & b),
        (a ^ b) & m == (a ^ b),
{
    assert((a | b) & m == (a | b)) by (bit_vector)
        requires
            a & m == a,
            b & m == b,
    ;
    assert((a & b) & m == (a & b)) by (bit_vector)
        requires
            a & m == a,
    ;
    assert((a ^ b) & m == (a ^ b)) by (bit_vector)
        requires
            a & m == a,
            b & m == b,
    ;
}

proof fn lemma_clear_within(a: u64, b: u64, m: u64)
    requires
        a & m == a,
    ensures
        a & (!b & m) == a & !b,
        (a & !b) & m == a & !b,
{
    assert(a & (!b & m) == a & !b) by (bit_vector)
        requires
            a & m == a,
    ;
    assert((a & !b) & m == a & !b) by (bit_vector)
        requires
            a & m == a,
    ;
}

impl<const ALL: u64> Flag<ALL> {
    /// The variant whose discriminant is `value`, if `value` is a single bit within `ALL`.
    pub fn new(value: u64) -> (r: Option<Self>)
        ensures
            r is Some <==> power_of_two(value) && value & ALL == value,
            r matches Some(flag) ==> flag@ == value,
    {
        if is_power_of_two(value) && value & ALL == value {
            Some(Flag { bit: value })
        } else {
            None
        }
    }

    /// The variant's discriminant as an integer: a single bit within `ALL`.
    pub fn bits(self) -> (r: u64)
        ensures
            r == self@,
            power_of_two(r),
            r & ALL == r,
    {
        proof {
            use_type_invariant(&self);
        }
        self.bit
    }

    /// An empty set of this enum's flags.
    pub fn flags() -> (r: FlagSet<ALL>)
        ensures
            r@ == 0,
    {
        FlagSet::empty()
    }

    /// The set of all of this enum's flags.
    pub fn all() -> (r: FlagSet<ALL>)
        ensures
            r@ == ALL,
    {
        FlagSet::all()
    }

    /// The set of `self` and `flag`.
    pub fn union(self, flag: Self) -> (r: FlagSet<ALL>)
        ensures
            r@ == self@ | flag@,
    {
        proof {
            use_type_invariant(&self);
            use_type_invariant(&flag);
            lemma_ops_within(self.bit, flag.bit, ALL);
        }
        FlagSet { bits: self.bit | flag.bit }
    }
}

impl<const ALL: u64> IntoFlagSet<ALL> for Flag<ALL> {
    open spec fn flag_bits(&self) -> u64 {
        self@
    }

    fn into_flag_set(self) -> (r: FlagSet<ALL>) {
        FlagSet::from_flag(self)
    }
}

impl<const ALL: u64> IntoFlagSet<ALL> for FlagSet<ALL> {
    open spec fn flag_bits(&self) -> u64 {
        self@
    }

    fn into_flag_set(self) -> (r: FlagSet<ALL>) {
        self
    }
}

impl<const ALL: u64> IntoFlagSet<ALL> for u64 {
    /// A raw integer stands for its bits that belong to a variant.
    open spec fn flag_bits(&self) -> u64 {
        *self & ALL
    }

    fn into_flag_set(self) -> (r: FlagSet<ALL>) {
        FlagSet::from_bits(self)
    }
}

impl<const ALL: u64> FlagSet<ALL> {
    /// The set with no flag.
    pub fn empty() -> (r: Self)
        ensures
            r@ == 0,
    {
        proof {
            lemma_zero_within(ALL);
        }
        FlagSet { bits: 0 }
    }

    /// The set of every variant's bit.
    pub fn all() -> (r: Self)
        ensures
            r@ == ALL,
    {
        proof {
            lemma_mask_within(ALL);
        }
        FlagSet { bits: ALL }
    }

    /// The set of just `flag`.
    pub fn from_flag(flag: Flag<ALL>) -> (r: Self)
        ensures
            r@ == flag@,
    {
        proof {
            use_type_invariant(&flag);
        }
        FlagSet { bits: flag.bit }
    }

    /// The set of the bits of `value` that belong to a variant; the others are dropped.
    pub fn from_bits(value: u64) -> (r: Self)
        ensures
            r@ == value & ALL,
    {
        proof {
            lemma_masked_within(value, ALL);
        }
        FlagSet { bits: value & ALL }
    }

    /// The raw bits; none of them lies outside `ALL`.
    pub fn bits(&self) -> (r: u64)
        ensures
            r == self@,
            r & ALL == r,
    {
        proof {
            use_type_invariant(self);
        }
        self.bits
    }

    /// The set with `flag` added.
    pub fn union(self, flag: Flag<ALL>) -> (r: Self)
        ensures
            r@ == self@ | flag@,
    {
        proof {
            use_type_invariant(&self);
            use_type_invariant(&flag);
            lemma_ops_within(self.bits, flag.bit, ALL);
        }
        FlagSet { bits: self.bits | flag.bit }
    }

    /// No bit is set.
    pub fn is_empty(&self) -> (r: bool)
        ensures
            r == (self@ == 0),
    {
        self.bits == 0
    }

    /// Every variant's bit is set.
    pub fn is_all(&self) -> (r: bool)
        ensures
            r == (self@ == ALL),
    {
        self.bits == ALL
    }

    /// Removes every flag.
    pub fn clear(&mut self)
        ensures
            final(self)@ == 0,
    {
        proof {
            lemma_zero_within(ALL);
        }
        self.bits = 0;
    }

    /// Adds every bit of `flags`.
    pub fn set<T: IntoFlagSet<ALL>>(&mut self, flags: T)
        ensures
            final(self)@ == old(self)@ | flags.flag_bits(),
    {
        let other = flags.into_flag_set();
        proof {
            use_type_invariant(&*self);
            use_type_invariant(&other);
            lemma_ops_within(self.bits, other.bits, ALL);
        }
        self.bits = self.bits | other.bits;
    }

    /// Removes every bit of `flags`; bits that are not set stay unset.
    pub fn unset<T: IntoFlagSet<ALL>>(&mut self, flags: T)
        ensures
            final(self)@ == old(self)@ & !flags.flag_bits(),
    {
        let other = flags.into_flag_set();
        proof {
            use_type_invariant(&*self);
            lemma_clear_within(self.bits, other.bits, ALL);
        }
        self.bits = self.bits & !other.bits;
    }

    /// Every bit of `flags` is set.
    pub fn contains<T: IntoFlagSet<ALL>>(&self, flags: T) -> (r: bool)
        ensures
            r == (self@ & flags.flag_bits() == flags.flag_bits()),
    {
        let other = flags.into_flag_set();
        self.bits & other.bits == other.bits
    }

    /// At least one bit of `flags` is set.
    pub fn contains_any<T: IntoFlagSet<ALL>>(&self, flags: T) -> (r: bool)
        ensures
            r == (self@ & flags.flag_bits() != 0),
    {
        let other = flags.into_flag_set();
        self.bits & other.bits != 0
    }

    /// No bit of `flags` is set.
    pub fn is_disjoint<T: IntoFlagSet<ALL>>(&self, flags: T) -> (r: bool)
        ensures
            r == (self@ & flags.flag_bits() == 0),
    {
        let other = flags.into_flag_set();
        self.bits & other.bits == 0
    }
}

impl<const ALL: u64> core::ops::BitOr<Flag<ALL>> for Flag<ALL> {
    type Output = FlagSet<ALL>;

    /// The set of the bits in either operand.
    fn bitor(self, rhs: Flag<ALL>) -> (r: FlagSet<ALL>)
        ensures
            r@ == self@ | rhs@,
    {
        proof {
            use_type_invariant(&self);
            use_type_invariant(&rhs);
            lemma_ops_within(self.bit, rhs.bit, ALL);
        }
        FlagSet { bits: self.bit | rhs.bit }
    }
}

impl<const ALL: u64> BitOrSpecImpl<Flag<ALL>> for Flag<ALL> {
    open spec fn obeys_bitor_spec() -> bool {
        true
    }

    open spec fn bitor_req(self, rhs: Flag<ALL>) -> bool {
        true
    }

    closed spec fn bitor_spec(self, rhs: Flag<ALL>) -> FlagSet<ALL> {
        FlagSet { bits: self.bit | rhs.bit }
    }
}

impl<const ALL: u64> core::ops::BitOr<Flag<ALL>> for FlagSet<ALL> {
    type Output = FlagSet<ALL>;

    /// The set of the bits in either operand.
    fn bitor(self, rhs: Flag<ALL>) -> (r: FlagSet<ALL>)
        ensures
            r@ == self@ | rhs@,
    {
        proof {
            use_type_invariant(&self);
            use_type_invariant(&rhs);
            lemma_ops_within(self.bits, rhs.bit, ALL);
        }
        FlagSet { bits: self.bits | rhs.bit }
    }
}

impl<const ALL: u64> BitOrSpecImpl<Flag<ALL>> for FlagSet<ALL> {
    open spec fn obeys_bitor_spec() -> bool {
        true
    }

    open spec fn bitor_req(self, rhs: Flag<ALL>) -> bool {
        true
    }

    closed spec fn bitor_spec(self, rhs: Flag<ALL>) -> FlagSet<ALL> {
        FlagSet { bits: self.bits | rhs.bit }
    }
}

impl<const ALL: u64> core::ops::BitOr<FlagSet<ALL>> for FlagSet<ALL> {
    type Output = FlagSet<ALL>;

    /// The set of the bits in either operand.
    fn bitor(self, rhs: FlagSet<ALL>) -> (r: FlagSet<ALL>)
        ensures
            r@ == self@ | rhs@,
    {
        proof {
            use_type_invariant(&self);
            use_type_invariant(&rhs);
            lemma_ops_within(self.bits, rhs.bits, ALL);
        }
        FlagSet { bits: self.bits | rhs.bits }
    }
}

impl<const ALL: u64> BitOrSpecImpl<FlagSet<ALL>> for FlagSet<ALL> {
    open spec fn obeys_bitor_spec() -> bool {
        true
    }

    open spec fn bitor_req(self, rhs: FlagSet<ALL>) -> bool {
        true
    }

    closed spec fn bitor_spec(self, rhs: FlagSet<ALL>) -> FlagSet<ALL> {
        FlagSet { bits: self.bits | rhs.bits }
    }
}

impl<const ALL: u64> core::ops::BitOrAssign<Flag<ALL>> for FlagSet<ALL> {
    fn bitor_assign(&mut self, rhs: Flag<ALL>)
        ensures
            final(self)@ == old(self)@ | rhs@,
    {
        proof {
            use_type_invariant(&*self);
            use_type_invariant(&rhs);
            lemma_ops_within(self.bits, rhs.bit, ALL);
        }
        self.bits = self.bits | rhs.bit;
    }
}

impl<const ALL: u64> core::ops::BitOrAssign<FlagSet<ALL>> for FlagSet<ALL> {
    fn bitor_assign(&mut self, rhs: FlagSet<ALL>)
        ensures
            final(self)@ == old(self)@ | rhs@,
    {
        proof {
            use_type_invariant(&*self);
            use_type_invariant(&rhs);
            lemma_ops_within(self.bits, rhs.bits, ALL);
        }
        self.bits = self.bits | rhs.bits;
    }
}

impl<const ALL: u64> core::ops::BitAnd<Flag<ALL>> for Flag<ALL> {
    type Output = FlagSet<ALL>;

    /// The set of the bits in both operands.
    fn bitand(self, rhs: Flag<ALL>) -> (r: FlagSet<ALL>)
        ensures
            r@ == self@ & rhs@,
    {
        proof {
            use_type_invariant(&self);
            use_type_invariant(&rhs);
            lemma_ops_within(self.bit, rhs.bit, ALL);
        }
        FlagSet { bits: self.bit & rhs.bit }
    }
}

impl<const ALL: u64> BitAndSpecImpl<Flag<ALL>> for Flag<ALL> {
    open spec fn obeys_bitand_spec() -> bool {
        true
    }

    open spec fn bitand_req(self, rhs: Flag<ALL>) -> bool {
        true
    }

    closed spec fn bitand_spec(self, rhs: Flag<ALL>) -> FlagSet<ALL> {
        FlagSet { bits: self.bit & rhs.bit }
    }
}

impl<const ALL: u64> core::ops::BitAnd<Flag<ALL>> for FlagSet<ALL> {
    type Output = FlagSet<ALL>;

    /// The set of the bits in both operands.
    fn bitand(self, rhs: Flag<ALL>) -> (r: FlagSet<ALL>)
        ensures
            r@ == self@ & rhs@,
    {
        proof {
            use_type_invariant(&self);
            use_type_invariant(&rhs);
            lemma_ops_within(self.bits, rhs.bit, ALL);
        }
        FlagSet { bits: self.bits & rhs.bit }
    }
}

impl<const ALL: u64> BitAndSpecImpl<Flag<ALL>> for FlagSet<ALL> {
    open spec fn obeys_bitand_spec() -> bool {
        true
    }

    open spec fn bitand_req(self, rhs: Flag<ALL>) -> bool {
        true
    }

    closed spec fn bitand_spec(self, rhs: Flag<ALL>) -> FlagSet<ALL> {
        FlagSet { bits: self.bits & rhs.bit }
    }
}

impl<const ALL: u64> core::ops::BitAnd<FlagSet<ALL>> for FlagSet<ALL> {
    type Output = FlagSet<ALL>;

    /// The set of the bits in both operands.
    fn bitand(self, rhs: FlagSet<ALL>) -> (r: FlagSet<ALL>)
        ensures
            r@ == self@ & rhs@,
    {
        proof {
            use_type_invariant(&self);
            use_type_invariant(&rhs);
            lemma_ops_within(self.bits, rhs.bits, ALL);
        }
        FlagSet { bits: self.bits & rhs.bits }
    }
}

impl<const ALL: u64> BitAndSpecImpl<FlagSet<ALL>> for FlagSet<ALL> {
    open spec fn obeys_bitand_spec() -> bool {
        true
    }

    open spec fn bitand_req(self, rhs: FlagSet<ALL>) -> bool {
        true
    }

    closed spec fn bitand_spec(self, rhs: FlagSet<ALL>) -> FlagSet<ALL> {
        FlagSet { bits: self.bits & rhs.bits }
    }
}

impl<const ALL: u64> core::ops::BitAndAssign<Flag<ALL>> for FlagSet<ALL> {
    fn bitand_assign(&mut self, rhs: Flag<ALL>)
        ensures
            final(self)@ == old(self)@ & rhs@,
    {
        proof {
            use_type_invariant(&*self);
            use_type_invariant(&rhs);
            lemma_ops_within(self.bits, rhs.bit, ALL);
        }
        self.bits = self.bits & rhs.bit;
    }
}

impl<const ALL: u64> core::ops::BitAndAssign<FlagSet<ALL>> for FlagSet<ALL> {
    fn bitand_assign(&mut self, rhs: FlagSet<ALL>)
        ensures
            final(self)@ == old(self)@ & rhs@,
    {
        proof {
            use_type_invariant(&*self);
            use_type_invariant(&rhs);
            lemma_ops_within(self.bits, rhs.bits, ALL);
        }
        self.bits = self.bits & rhs.bits;
    }
}

impl<const ALL: u64> core::ops::BitXor<Flag<ALL>> for Flag<ALL> {
    type Output = FlagSet<ALL>;

    /// The set of the bits in exactly one operand.
    fn bitxor(self, rhs: Flag<ALL>) -> (r: FlagSet<ALL>)
        ensures
            r@ == self@ ^ rhs@,
    {
        proof {
            use_type_invariant(&self);
            use_type_invariant(&rhs);
            lemma_ops_within(self.bit, rhs.bit, ALL);
        }
        FlagSet { bits: self.bit ^ rhs.bit }
    }
}

impl<const ALL: u64> BitXorSpecImpl<Flag<ALL>> for Flag<ALL> {
    open spec fn obeys_bitxor_spec() -> bool {
        true
    }

    open spec fn bitxor_req(self, rhs: Flag<ALL>) -> bool {
        true
    }

    closed spec fn bitxor_spec(self, rhs: Flag<ALL>) -> FlagSet<ALL> {
        FlagSet { bits: self.bit ^ rhs.bit }
    }
}

impl<const ALL: u64> core::ops::BitXor<Flag<ALL>> for FlagSet<ALL> {
    type Output = FlagSet<ALL>;

    /// The set of the bits in exactly one operand.
    fn bitxor(self, rhs: Flag<ALL>) -> (r: FlagSet<ALL>)
        ensures
            r@ == self@ ^ rhs@,
    {
        proof {
            use_type_invariant(&self);
            use_type_invariant(&rhs);
            lemma_ops_within(self.bits, rhs.bit, ALL);
        }
        FlagSet { bits: self.bits ^ rhs.bit }
    }
}

impl<const ALL: u64> BitXorSpecImpl<Flag<ALL>> for FlagSet<ALL> {
    open spec fn obeys_bitxor_spec() -> bool {
        true
    }

    open spec fn bitxor_req(self, rhs: Flag<ALL>) -> bool {
        true
    }

    closed spec fn bitxor_spec(self, rhs: Flag<ALL>) -> FlagSet<ALL> {
        FlagSet { bits: self.bits ^ rhs.bit }
    }
}

impl<const ALL: u64> core::ops::BitXor<FlagSet<ALL>> for FlagSet<ALL> {
    type Output = FlagSet<ALL>;

    /// The set of the bits in exactly one operand.
    fn bitxor(self, rhs: FlagSet<ALL>) -> (r: FlagSet<ALL>)
        ensures
            r@ == self@ ^ rhs@,
    {
        proof {
            use_type_invariant(&self);
            use_type_invariant(&rhs);
            lemma_ops_within(self.bits, rhs.bits, ALL);
        }
        FlagSet { bits: self.bits ^ rhs.bits }
    }
}

impl<const ALL: u64> BitXorSpecImpl<FlagSet<ALL>> for FlagSet<ALL> {
    open spec fn obeys_bitxor_spec() -> bool {
        true
    }

    open spec fn bitxor_req(self, rhs: FlagSet<ALL>) -> bool {
        true
    }

    closed spec fn bitxor_spec(self, rhs: FlagSet<ALL>) -> FlagSet<ALL> {
        FlagSet { bits: self.bits ^ rhs.bits }
    }
}

impl<const ALL: u64> core::ops::BitXorAssign<Flag<ALL>> for FlagSet<ALL> {
    fn bitxor_assign(&mut self, rhs: Flag<ALL>)
        ensures
            final(self)@ == old(self)@ ^ rhs@,
    {
        proof {
            use_type_invariant(&*self);
            use_type_invariant(&rhs);
            lemma_ops_within(self.bits, rhs.bit, ALL);
        }
        self.bits = self.bits ^ rhs.bit;
    }
}

impl<const ALL: u64> core::ops::BitXorAssign<FlagSet<ALL>> for FlagSet<ALL> {
    fn bitxor_assign(&mut self, rhs: FlagSet<ALL>)
        ensures
            final(self)@ == old(self)@ ^ rhs@,
    {
        proof {
            use_type_invariant(&*self);
            use_type_invariant(&rhs);
            lemma_ops_within(self.bits, rhs.bits, ALL);
        }
        self.bits = self.bits ^ rhs.bits;
    }
}

impl<const ALL: u64> core::ops::Not for FlagSet<ALL> {
    type Output = Self;

    /// The set of the variants' bits that `self` lacks.
    fn not(self) -> (r: Self)
        ensures
            r@ == !self@ & ALL,
    {
        proof {
            lemma_not_within(self.bits, ALL);
        }
        FlagSet { bits: !self.bits & ALL }
    }
}

impl<const ALL: u64> NotSpecImpl for FlagSet<ALL> {
    open spec fn obeys_not_spec() -> bool {
        true
    }

    open spec fn not_req(self) -> bool {
        true
    }

    closed spec fn not_spec(self) -> Self {
        FlagSet { bits: !self.bits & ALL }
    }
}

impl<const ALL: u64> PartialEq<Flag<ALL>> for FlagSet<ALL> {
    /// The set holds exactly the bit of `other`.
    fn eq(&self, other: &Flag<ALL>) -> (r: bool) {
        self.bits == other.bit
    }
}

impl<const ALL: u64> PartialEqSpecImpl<Flag<ALL>> for FlagSet<ALL> {
    open spec fn obeys_eq_spec() -> bool {
        true
    }

    open spec fn eq_spec(&self, other: &Flag<ALL>) -> bool {
        self@ == other@
    }
}

impl<const ALL: u64> PartialEq<FlagSet<ALL>> for Flag<ALL> {
    /// `other` holds exactly the bit of `self`.
    fn eq(&self, other: &FlagSet<ALL>) -> (r: bool) {
        other.bits == self.bit
    }
}

impl<const ALL: u64> PartialEqSpecImpl<FlagSet<ALL>> for Flag<ALL> {
    open spec fn obeys_eq_spec() -> bool {
        true
    }

    open spec fn eq_spec(&self, other: &FlagSet<ALL>) -> bool {
        other@ == self@
    }
}

impl<const ALL: u64> From<Flag<ALL>> for FlagSet<ALL> {
    /// The set of just `flag`.
    fn from(flag: Flag<ALL>) -> (r: Self)
        ensures
            r@ == flag@,
    {
        FlagSet::from_flag(flag)
    }
}

impl<const ALL: u64> FromSpecImpl<Flag<ALL>> for FlagSet<ALL> {
    open spec fn obeys_from_spec() -> bool {
        true
    }

    closed spec fn from_spec(flag: Flag<ALL>) -> Self {
        FlagSet { bits: flag.bit }
    }
}

impl<const ALL: u64> From<u64> for FlagSet<ALL> {
    /// The set of the bits of `value` that belong to a variant.
    fn from(value: u64) -> (r: Self)
        ensures
            r@ == value & ALL,
    {
        FlagSet::from_bits(value)
    }
}

impl<const ALL: u64> FromSpecImpl<u64> for FlagSet<ALL> {
    open spec fn obeys_from_spec() -> bool {
        true
    }

    closed spec fn from_spec(value: u64) -> Self {
        FlagSet { bits: value & ALL }
    }
}

impl<const ALL: u64> From<Flag<ALL>> for u64 {
    /// The variant's discriminant.
    fn from(flag: Flag<ALL>) -> (r: u64) {
        flag.bit
    }
}

impl<const ALL: u64> FromSpecImpl<Flag<ALL>> for u64 {
    open spec fn obeys_from_spec() -> bool {
        true
    }

    open spec fn from_spec(flag: Flag<ALL>) -> u64 {
        flag@
    }
}

} // verus!
