use vstd::prelude::*;
use vstd::string::{StrSliceExecFns, StringExecFns};

use crate::bits::{
    is_power_of_two, lemma_max_of, lemma_or_all_covers, lemma_power_of_two_nonzero, max_of, or_all,
    power_of_two,
};
use crate::docs::{
    all_fn_doc, all_fn_doc_text, enum_doc, enum_doc_text, flags_fn_doc, flags_fn_doc_text,
    struct_doc, struct_doc_text, union_fn_doc, union_fn_doc_text,
};
use crate::error::{ErrorKind, FlagsError, Site};
use crate::expr::{eval_expr, eval_spec, DiscExpr};
use crate::flagset::Flag;

verus! {

/// One variant of the annotated enum.
#[derive(Debug)]
pub struct VariantInput {
    pub name: String,
    /// The variant has no fields (neither `(..)` nor `{ .. }`).
    pub is_unit: bool,
    /// The expression after `=`, if any.
    pub discriminant: Option<DiscExpr>,
}

/// What kind of item the attribute was put on.
#[derive(Debug)]
pub enum ItemBody {
    Enum(Vec<VariantInput>),
    Struct,
    Union,
}

/// The item that `#[flags]` annotates.
#[derive(Debug)]
pub struct ItemInput {
    pub name: String,
    pub body: ItemBody,
}

/// The integer type behind the enum and its flag set.
#[derive(Debug, PartialEq, Eq)]
pub enum Backing {
    U8,
    U16,
    U32,
    U64,
    /// The type given as the attribute's argument, by its text.
    Given(String),
}

/// The doc comments put on the generated items.
#[derive(Debug)]
pub struct FlagsDocs {
    pub enum_doc: String,
    pub flags_fn_doc: String,
    pub all_fn_doc: String,
    pub union_fn_doc: String,
    pub struct_doc: String,
}

/// What the attribute generates for an accepted enum.
#[derive(Debug)]
pub struct FlagsPlan {
    pub enum_name: String,
    /// `{enum_name}Flags`, the name taken without the `r#` of a raw identifier.
    pub struct_name: String,
    pub backing: Backing,
    /// The value of each variant, in declaration order.
    pub values: Vec<u64>,
    /// The or of all values.
    pub all: u64,
    pub docs: FlagsDocs,
}

/// The bits of the smallest unsigned type that holds `max`.
pub open spec fn auto_backing(max: u64) -> Backing {
    if max < 0x100 {
        Backing::U8
    } else if max < 0x1_0000 {
        Backing::U16
    } else if max < 0x1_0000_0000 {
        Backing::U32
    } else {
        Backing::U64
    }
}

/// The width in bits of a standard backing type.
pub open spec fn backing_bits(b: Backing) -> nat {
    match b {
        Backing::U8 => 8,
        Backing::U16 => 16,
        Backing::U32 => 32,
        _ => 64,
    }
}

/// The backing type: the given one, else the smallest that holds `max`.
pub open spec fn chosen_backing(given: Option<String>, max: u64) -> Backing {
    match given {
        Some(t) => Backing::Given(t),
        None => auto_backing(max),
    }
}

/// How the backing type is written in the generated docs.
pub open spec fn backing_text(b: Backing) -> Seq<char> {
    match b {
        Backing::U8 => "u8"@,
        Backing::U16 => "u16"@,
        Backing::U32 => "u32"@,
        Backing::U64 => "u64"@,
        Backing::Given(t) => t@,
    }
}

/// The value of one variant at position `index`, or why it is refused.
pub open spec fn check_variant_spec(v: VariantInput, index: int) -> Result<u64, FlagsError> {
    if !v.is_unit {
        Err(FlagsError { kind: ErrorKind::VariantHasFields, site: Site::Variant(index as usize) })
    } else {
        match v.discriminant {
            None => Err(
                FlagsError {
                    kind: ErrorKind::MissingDiscriminant,
                    site: Site::Variant(index as usize),
                },
            ),
            Some(e) => match eval_spec(e) {
                Err(err) => Err(err),
                Ok(value) => if power_of_two(value) {
                    Ok(value)
                } else {
                    Err(FlagsError { kind: ErrorKind::NotPowerOfTwo, site: Site::Expr(e.spec_id()) })
                },
            },
        }
    }
}

/// The values of the variants, checked in declaration order; the first refusal wins.
pub open spec fn check_variants(vs: Seq<VariantInput>) -> Result<Seq<u64>, FlagsError>
    decreases vs.len(),
{
    if vs.len() == 0 {
        Ok(Seq::empty())
    } else {
        match check_variants(vs.drop_last()) {
            Err(err) => Err(err),
            Ok(values) => match check_variant_spec(vs.last(), vs.len() - 1) {
                Err(err) => Err(err),
                Ok(value) => Ok(values.push(value)),
            },
        }
    }
}

/// The values of an annotated item's variants, or why the item is refused.
pub open spec fn outcome(input: ItemInput) -> Result<Seq<u64>, FlagsError> {
    match input.body {
        ItemBody::Enum(vs) => match check_variants(vs@) {
            Err(err) => Err(err),
            Ok(values) => if values.len() == 0 {
                Err(FlagsError { kind: ErrorKind::NoVariants, site: Site::ItemName })
            } else {
                Ok(values)
            },
        },
        _ => Err(FlagsError { kind: ErrorKind::NotAnEnum, site: Site::ItemName }),
    }
}

/// An identifier's name without the `r#` of a raw identifier.
pub open spec fn unraw(name: Seq<char>) -> Seq<char> {
    if name.len() >= 2 && name[0] == 'r' && name[1] == '#' {
        name.skip(2)
    } else {
        name
    }
}

/// The name of the flag set of the enum named `name`: `{name}Flags`, built
/// from the name without the `r#` of a raw identifier.
pub open spec fn struct_name_of(name: Seq<char>) -> Seq<char> {
    unraw(name) + "Flags"@
}

/// The variant named in the docs' examples: the first one.
pub open spec fn first_example(vs: Seq<VariantInput>) -> Seq<char> {
    vs[0].name@
}

/// The second variant named in the docs' examples: the second one, else the first.
pub open spec fn second_example(vs: Seq<VariantInput>) -> Seq<char> {
    if vs.len() >= 2 {
        vs[1].name@
    } else {
        vs[0].name@
    }
}

/// The docs generated for an enum named `e` with flag set `s`, backing text `t`
/// and example variants `v0`, `v1`.
pub open spec fn docs_match(
    docs: FlagsDocs,
    s: Seq<char>,
    e: Seq<char>,
    t: Seq<char>,
    v0: Seq<char>,
    v1: Seq<char>,
) -> bool {
    &&& docs.enum_doc@ == enum_doc_text(s, e, v0, v1)
    &&& docs.flags_fn_doc@ == flags_fn_doc_text(s)
    &&& docs.all_fn_doc@ == all_fn_doc_text(s)
    &&& docs.union_fn_doc@ == union_fn_doc_text(s)
    &&& docs.struct_doc@ == struct_doc_text(s, e, t, v0, v1)
}

impl FlagsPlan {
    /// The plan is one that an accepted enum gives: at least one variant,
    /// every value a power of two, `all` their or.
    pub open spec fn wf(&self) -> bool {
        &&& self.values@.len() > 0
        &&& forall|i: int| 0 <= i < self.values@.len() ==> power_of_two(#[trigger] self.values@[i])
        &&& self.all == or_all(self.values@)
    }
}

impl FlagsPlan {
    /// The variant at `index`, as a flag of the enum whose variants set the bits of
    /// `ALL`; `None` unless `index` is in range and `ALL` is this plan's `all`.
    pub fn flag<const ALL: u64>(&self, index: usize) -> (r: Option<Flag<ALL>>)
        ensures
            r is Some <==> {
                &&& index < self.values@.len()
                &&& self.all == ALL
                &&& power_of_two(self.values@[index as int])
                &&& self.values@[index as int] & ALL == self.values@[index as int]
            },
            r matches Some(f) ==> f@ == self.values@[index as int],
            self.wf() && self.all == ALL && index < self.values@.len() ==> r is Some,
    {
        if index >= self.values.len() || self.all != ALL {
            return None;
        }
        proof {
            if self.wf() {
                lemma_or_all_covers(self.values@, index as int);
            }
        }
        Flag::new(self.values[index])
    }
}

/// The name of the flag set of the enum named `name`.
pub fn flags_struct_name(name: &str) -> (r: String)
    ensures
        r@ == struct_name_of(name@),
{
    let n = name.unicode_len();
    let mut r = if n >= 2 && name.get_char(0) == 'r' && name.get_char(1) == '#' {
        String::from_str(name.substring_char(2, n))
    } else {
        String::from_str(name)
    };
    r.append("Flags");
    r
}

/// Checks one variant and evaluates its discriminant.
pub fn check_variant(v: &VariantInput, index: usize) -> (r: Result<u64, FlagsError>)
    ensures
        r == check_variant_spec(*v, index as int),
{
    if !v.is_unit {
        return Err(FlagsError::new(ErrorKind::VariantHasFields, Site::Variant(index)));
    }
    let e = match &v.discriminant {
        Some(e) => e,
        None => return Err(FlagsError::new(ErrorKind::MissingDiscriminant, Site::Variant(index))),
    };
    let value = match eval_expr(e) {
        Ok(value) => value,
        Err(err) => return Err(err),
    };
    proof {
        if power_of_two(value) {
            lemma_power_of_two_nonzero(value);
        }
    }
    if value == 0 || !is_power_of_two(value) {
        return Err(FlagsError::new(ErrorKind::NotPowerOfTwo, Site::Expr(e.id())));
    }
    Ok(value)
}

/// The smallest of `u8`, `u16`, `u32`, `u64` that holds `max`.
pub fn choose_backing(max: u64) -> (r: Backing)
    ensures
        r == auto_backing(max),
{
    if max < 0x100 {
        Backing::U8
    } else if max < 0x1_0000 {
        Backing::U16
    } else if max < 0x1_0000_0000 {
        Backing::U32
    } else {
        Backing::U64
    }
}

impl Backing {
    /// How the type is written.
    pub fn text(&self) -> (r: &str)
        ensures
            r@ == backing_text(*self),
    {
        match self {
            Backing::U8 => "u8",
            Backing::U16 => "u16",
            Backing::U32 => "u32",
            Backing::U64 => "u64",
            Backing::Given(t) => t.as_str(),
        }
    }
}

/// A failure found in a prefix of the variants is the failure of them all.
proof fn lemma_prefix_failure(vs: Seq<VariantInput>, k: int, err: FlagsError)
    requires
        0 <= k <= vs.len(),
        check_variants(vs.take(k)) == Err::<Seq<u64>, FlagsError>(err),
    ensures
        check_variants(vs) == Err::<Seq<u64>, FlagsError>(err),
    decreases vs.len() - k,
{
    if k < vs.len() {
        assert(vs.take(k + 1).drop_last() =~= vs.take(k));
        lemma_prefix_failure(vs, k + 1, err);
    } else {
        assert(vs.take(k) =~= vs);
    }
}

/// Accepted variants give one value each, and each value is a power of two.
pub proof fn lemma_checked_values(vs: Seq<VariantInput>)
    requires
        check_variants(vs) is Ok,
    ensures
        check_variants(vs)->Ok_0.len() == vs.len(),
        forall|i: int|
            0 <= i < vs.len() ==> power_of_two(#[trigger] check_variants(vs)->Ok_0[i]),
    decreases vs.len(),
{
    if vs.len() > 0 {
        lemma_checked_values(vs.drop_last());
        let values = check_variants(vs)->Ok_0;
        assert forall|i: int| 0 <= i < vs.len() implies power_of_two(#[trigger] values[i]) by {
            if i < vs.len() - 1 {
                assert(values[i] == check_variants(vs.drop_last())->Ok_0[i]);
            }
        }
    }
}

/// Validates the annotated item and works out what to generate for it:
/// the value of every variant, their or, the backing type (the given one,
/// else the smallest unsigned type that holds the largest value), the name
/// of the flag set and the docs.
pub fn expand(input: &ItemInput, given: Option<String>) -> (r: Result<FlagsPlan, FlagsError>)
    ensures
        match outcome(*input) {
            Err(err) => r == Err::<FlagsPlan, FlagsError>(err),
            Ok(values) => r is Ok,
        },
        r matches Ok(plan) ==> {
            &&& input.body matches ItemBody::Enum(vs)
            &&& outcome(*input) == Ok::<Seq<u64>, FlagsError>(plan.values@)
            &&& plan.wf()
            &&& plan.enum_name@ == input.name@
            &&& plan.struct_name@ == struct_name_of(input.name@)
            &&& plan.all == or_all(plan.values@)
            &&& plan.backing == chosen_backing(given, max_of(plan.values@))
            &&& docs_match(
                plan.docs,
                plan.struct_name@,
                input.name@,
                backing_text(plan.backing),
                first_example(vs@),
                second_example(vs@),
            )
        },
{
    let variants = match &input.body {
        ItemBody::Enum(vs) => vs,
        _ => return Err(FlagsError::new(ErrorKind::NotAnEnum, Site::ItemName)),
    };
    let n = variants.len();
    let mut values: Vec<u64> = Vec::new();
    let mut max_val: u64 = 0;
    let mut all: u64 = 0;
    for i in 0..n
        invariant
            input.body == ItemBody::Enum(*variants),
            n == variants@.len(),
            check_variants(variants@.take(i as int)) == Ok::<Seq<u64>, FlagsError>(values@),
            max_val == max_of(values@),
            all == or_all(values@),
    {
        proof {
            assert(variants@.take(i + 1).drop_last() =~= variants@.take(i as int));
        }
        let value = match check_variant(&variants[i], i) {
            Ok(value) => value,
            Err(err) => {
                proof {
                    assert(variants@.take(i + 1).last() == variants@[i as int]);
                    assert(check_variants(variants@.take(i + 1)) == Err::<Seq<u64>, FlagsError>(err));
                    lemma_prefix_failure(variants@, i + 1, err);
                }
                return Err(err);
            },
        };
        max_val = if value > max_val {
            value
        } else {
            max_val
        };
        all = all | value;
        let ghost before = values@;
        values.push(value);
        proof {
            assert(values@.drop_last() =~= before);
        }
    }
    proof {
        assert(variants@.take(n as int) =~= variants@);
        lemma_checked_values(variants@);
        lemma_max_of(values@);
        if values@.len() > 0 {
            lemma_power_of_two_nonzero(values@[0]);
        }
    }
    if max_val == 0 {
        return Err(FlagsError::new(ErrorKind::NoVariants, Site::ItemName));
    }
    let backing = match given {
        Some(t) => Backing::Given(t),
        None => choose_backing(max_val),
    };
    let struct_name = flags_struct_name(input.name.as_str());
    let v0 = &variants[0].name;
    let v1 = if n >= 2 {
        &variants[1].name
    } else {
        &variants[0].name
    };
    let docs = FlagsDocs {
        enum_doc: enum_doc(struct_name.as_str(), input.name.as_str(), v0.as_str(), v1.as_str()),
        flags_fn_doc: flags_fn_doc(struct_name.as_str()),
        all_fn_doc: all_fn_doc(struct_name.as_str()),
        union_fn_doc: union_fn_doc(struct_name.as_str()),
        struct_doc: struct_doc(
            struct_name.as_str(),
            input.name.as_str(),
            backing.text(),
            v0.as_str(),
            v1.as_str(),
        ),
    };
    Ok(FlagsPlan { enum_name: input.name.clone(), struct_name, backing, values, all, docs })
}

} // verus!
