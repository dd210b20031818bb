use vstd::prelude::*;

verus! {

/// The place in the annotated item that a diagnostic points at.
#[derive(Clone, Copy, Debug, PartialEq, Eq, Structural)]
pub enum Site {
    /// The name of the annotated item.
    ItemName,
    /// The name of the variant at this position in declaration order.
    Variant(usize),
    /// The discriminant expression node that carries this id.
    Expr(usize),
}

/// Why an annotated item was rejected.
#[derive(Clone, Copy, Debug, PartialEq, Eq, Structural)]
pub enum ErrorKind {
    /// The item is a struct or a union.
    NotAnEnum,
    /// A variant carries tuple or named fields.
    VariantHasFields,
    /// A variant has no `= value`.
    MissingDiscriminant,
    /// An integer literal does not fit in `u64`.
    OutOfRange,
    /// The right operand of `<<` is 64 or more.
    ShiftTooWide,
    /// `a << b` moves a set bit of `a` past bit 63.
    ShiftOverflow,
    /// A discriminant is neither an integer literal nor a `<<` of such.
    UnsupportedExpr,
    /// A discriminant evaluates to zero or to a value with more than one bit set.
    NotPowerOfTwo,
    /// The enum declares no variant at all.
    NoVariants,
}

/// A rejection of the annotated item, with the place it points at.
#[derive(Clone, Copy, Debug, PartialEq, Eq, Structural)]
pub struct FlagsError {
    pub kind: ErrorKind,
    pub site: Site,
}

/// The text of the diagnostic for each kind of rejection.
pub open spec fn kind_message(kind: ErrorKind) -> Seq<char> {
    match kind {
        ErrorKind::NotAnEnum => "#[flags] can only be applied to enums"@,
        ErrorKind::VariantHasFields => "all variants must be unit variants (no fields allowed)"@,
        ErrorKind::MissingDiscriminant =>
            "all variants must have an explicit discriminant value (e.g. `Foo = 1`)"@,
        ErrorKind::OutOfRange => "discriminant value is out of range for u64"@,
        ErrorKind::ShiftTooWide => "shift amount exceeds u64 bit width"@,
        ErrorKind::ShiftOverflow => "shift overflows u64"@,
        ErrorKind::UnsupportedExpr =>
            "discriminant must be an integer literal or a `1 << N` expression"@,
        ErrorKind::NotPowerOfTwo =>
            "discriminant must be a non-zero power of 2 (e.g. `1 << 3` or `0b0100`)"@,
        ErrorKind::NoVariants => "flag discriminant values must be non-zero powers of 2"@,
    }
}

impl FlagsError {
    pub fn new(kind: ErrorKind, site: Site) -> (r: Self)
        ensures
            r.kind == kind,
            r.site == site,
    {
        FlagsError { kind, site }
    }

    /// The diagnostic shown to the user for this rejection.
    pub fn message(&self) -> (r: &'static str)
        ensures
            r@ == kind_message(self.kind),
    {
        match self.kind {
            ErrorKind::NotAnEnum => "#[flags] can only be applied to enums",
            ErrorKind::VariantHasFields => "all variants must be unit variants (no fields allowed)",
            ErrorKind::MissingDiscriminant =>
                "all variants must have an explicit discriminant value (e.g. `Foo = 1`)",
            ErrorKind::OutOfRange => "discriminant value is out of range for u64",
            ErrorKind::ShiftTooWide => "shift amount exceeds u64 bit width",
            ErrorKind::ShiftOverflow => "shift overflows u64",
            ErrorKind::UnsupportedExpr =>
                "discriminant must be an integer literal or a `1 << N` expression",
            ErrorKind::NotPowerOfTwo =>
                "discriminant must be a non-zero power of 2 (e.g. `1 << 3` or `0b0100`)",
            ErrorKind::NoVariants => "flag discriminant values must be non-zero powers of 2",
        }
    }
}

} // verus!
