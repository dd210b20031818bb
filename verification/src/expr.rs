use vstd::prelude::*;

use vstd::arithmetic::power2::pow2;
use vstd::bits::{lemma_u64_pow2_no_overflow, lemma_u64_shl_is_mul};

use crate::error::{ErrorKind, FlagsError, Site};

verus! {

/// A discriminant expression, as far as the attribute reads it. Every node
/// carries an id, by which a diagnostic points back at it.
#[derive(Debug)]
pub enum DiscExpr {
    /// An integer literal, held as it is written (`0b0100`, `8`, `1_000u16`).
    Int { text: String, id: usize },
    /// `left << right`.
    Shl { left: Box<DiscExpr>, right: Box<DiscExpr>, id: usize },
    /// Any other expression.
    Other { id: usize },
}

impl DiscExpr {
    pub open spec fn spec_id(self) -> usize {
        match self {
            DiscExpr::Int { id, .. } => id,
            DiscExpr::Shl { id, .. } => id,
            DiscExpr::Other { id } => id,
        }
    }

    /// The id of the root node.
    pub fn id(&self) -> (r: usize)
        ensures
            r == self.spec_id(),
    {
        match self {
            DiscExpr::Int { id, .. } => *id,
            DiscExpr::Shl { id, .. } => *id,
            DiscExpr::Other { id } => *id,
        }
    }
}

/// Why the text of an integer literal gave no `u64`.
#[derive(Clone, Copy, Debug, PartialEq, Eq, Structural)]
pub enum LiteralError {
    /// The text is not one Rust integer literal.
    NotAnInteger,
    /// The literal's value exceeds `u64::MAX`.
    TooLarge,
}

/// The value of a digit character in radix 16 or below (`0`-`9`, `a`-`f`,
/// `A`-`F`), or `-1` for any other character.
pub open spec fn digit_value(c: char) -> int {
    let n = c as int;
    if 48 <= n <= 57 {
        n - 48
    } else if 97 <= n <= 102 {
        n - 87
    } else if 65 <= n <= 70 {
        n - 55
    } else {
        -1
    }
}

/// `c` is a digit of `radix`.
pub open spec fn is_digit_of(c: char, radix: int) -> bool {
    0 <= digit_value(c) < radix
}

/// The radix that a literal's prefix selects: `0x` 16, `0o` 8, `0b` 2, else 10.
pub open spec fn literal_radix(text: Seq<char>) -> int {
    if text.len() >= 2 && text[0] == '0' && text[1] == 'x' {
        16
    } else if text.len() >= 2 && text[0] == '0' && text[1] == 'o' {
        8
    } else if text.len() >= 2 && text[0] == '0' && text[1] == 'b' {
        2
    } else {
        10
    }
}

/// The part of a literal after its radix prefix.
pub open spec fn literal_digits(text: Seq<char>) -> Seq<char> {
    if literal_radix(text) == 10 {
        text
    } else {
        text.skip(2)
    }
}

/// The number that a run of digits of `radix` and `_` separators denotes.
pub open spec fn digits_value(s: Seq<char>, radix: int) -> int
    decreases s.len(),
{
    if s.len() == 0 {
        0
    } else if s.last() == '_' {
        digits_value(s.drop_last(), radix)
    } else {
        digits_value(s.drop_last(), radix) * radix + digit_value(s.last())
    }
}

/// The digits of `s`, its `_` separators left out.
pub open spec fn without_separators(s: Seq<char>) -> Seq<char>
    decreases s.len(),
{
    if s.len() == 0 {
        s
    } else if s.last() == '_' {
        without_separators(s.drop_last())
    } else {
        without_separators(s.drop_last()).push(s.last())
    }
}

/// `text` is an integer literal without a suffix: an optional `0x`, `0o` or
/// `0b` prefix, then a digit of that radix, then digits and `_` separators.
pub open spec fn plain_int_literal(text: Seq<char>) -> bool {
    let digits = literal_digits(text);
    let radix = literal_radix(text);
    &&& digits.len() > 0
    &&& is_digit_of(digits[0], radix)
    &&& forall|i: int| 0 <= i < digits.len() ==> #[trigger] digits[i] == '_' || is_digit_of(digits[i], radix)
}

/// The number that a plain integer literal denotes.
pub open spec fn plain_literal_value(text: Seq<char>) -> int {
    digits_value(literal_digits(text), literal_radix(text))
}

/// The value that syn reads from the text of a Rust integer literal, in any
/// radix, with `_` separators and an optional suffix.
pub uninterp spec fn int_literal_value(text: Seq<char>) -> Result<u64, LiteralError>;

/// Reads an integer literal from its text with `syn::parse_str::<syn::LitInt>`,
/// then takes its value with `syn::LitInt::base10_parse::<u64>`. The contract
/// claims that the outcome is a function of the text (named
/// `int_literal_value`): a text that syn does not parse as one integer literal
/// gives `NotAnInteger`, a literal whose value does not fit gives `TooLarge`.
/// For a literal without a suffix it claims the value: the digits after the
/// radix prefix, `_` separators skipped (syn's `parse_lit_int`). It says
/// nothing of the value of a suffixed literal.
#[verifier::external_body]
fn parse_int_literal(text: &str) -> (r: Result<u64, LiteralError>)
    ensures
        r == int_literal_value(text@),
        plain_int_literal(text@) ==> r == (if plain_literal_value(text@) <= u64::MAX {
            Ok::<u64, LiteralError>(plain_literal_value(text@) as u64)
        } else {
            Err::<u64, LiteralError>(LiteralError::TooLarge)
        }),
{
    match syn::parse_str::<syn::LitInt>(text) {
        Err(_) => Err(LiteralError::NotAnInteger),
        Ok(lit) => match lit.base10_parse::<u64>() {
            Ok(value) => Ok(value),
            Err(_) => Err(LiteralError::TooLarge),
        },
    }
}

/// What a literal node evaluates to, given what was read from its text.
pub open spec fn literal_result(read: Result<u64, LiteralError>, id: usize) -> Result<
    u64,
    FlagsError,
> {
    match read {
        Ok(value) => Ok(value),
        Err(LiteralError::TooLarge) => Err(
            FlagsError { kind: ErrorKind::OutOfRange, site: Site::Expr(id) },
        ),
        Err(LiteralError::NotAnInteger) => Err(
            FlagsError { kind: ErrorKind::UnsupportedExpr, site: Site::Expr(id) },
        ),
    }
}

/// The value of a discriminant expression: literals by their value, `a << b`
/// as `a * 2^b`, refused when `b` is 64 or more or when the product exceeds
/// `u64::MAX`. Operands are evaluated left to right and the first failure is
/// reported.
pub open spec fn eval_spec(e: DiscExpr) -> Result<u64, FlagsError>
    decreases e,
{
    match e {
        DiscExpr::Int { text, id } => literal_result(int_literal_value(text@), id),
        DiscExpr::Shl { left, right, id } => match eval_spec(*left) {
            Err(err) => Err(err),
            Ok(base) => match eval_spec(*right) {
                Err(err) => Err(err),
                Ok(shift) => if shift >= 64 {
                    Err(FlagsError { kind: ErrorKind::ShiftTooWide, site: Site::Expr(right.spec_id()) })
                } else if base * pow2(shift as nat) > u64::MAX {
                    Err(FlagsError { kind: ErrorKind::ShiftOverflow, site: Site::Expr(id) })
                } else {
                    Ok((base * pow2(shift as nat)) as u64)
                },
            },
        },
        DiscExpr::Other { id } => Err(
            FlagsError { kind: ErrorKind::UnsupportedExpr, site: Site::Expr(id) },
        ),
    }
}

/// Turns what was read from a literal's text into the literal node's value.
pub fn literal_outcome(read: Result<u64, LiteralError>, id: usize) -> (r: Result<u64, FlagsError>)
    ensures
        r == literal_result(read, id),
{
    match read {
        Ok(value) => Ok(value),
        Err(LiteralError::TooLarge) => Err(FlagsError::new(ErrorKind::OutOfRange, Site::Expr(id))),
        Err(LiteralError::NotAnInteger) => Err(
            FlagsError::new(ErrorKind::UnsupportedExpr, Site::Expr(id)),
        ),
    }
}

/// Evaluates a discriminant expression.
pub fn eval_expr(e: &DiscExpr) -> (r: Result<u64, FlagsError>)
    ensures
        r == eval_spec(*e),
        match *e {
            DiscExpr::Int { text, id } => plain_int_literal(text@) ==> r == (if plain_literal_value(
                text@,
            ) <= u64::MAX {
                Ok::<u64, FlagsError>(plain_literal_value(text@) as u64)
            } else {
                Err::<u64, FlagsError>(
                    FlagsError { kind: ErrorKind::OutOfRange, site: Site::Expr(id) },
                )
            }),
            _ => true,
        },
    decreases e,
{
    match e {
        DiscExpr::Int { text, id } => literal_outcome(parse_int_literal(text.as_str()), *id),
        DiscExpr::Shl { left, right, id } => {
            let base = match eval_expr(left) {
                Ok(v) => v,
                Err(err) => return Err(err),
            };
            let shift = match eval_expr(right) {
                Ok(v) => v,
                Err(err) => return Err(err),
            };
            if shift >= 64 {
                return Err(FlagsError::new(ErrorKind::ShiftTooWide, Site::Expr(right.id())));
            }
            proof {
                lemma_u64_pow2_no_overflow(shift as nat);
                lemma_u64_shl_is_mul(1, shift);
            }
            let factor = 1u64 << shift;
            match base.checked_mul(factor) {
                Some(value) => Ok(value),
                None => Err(FlagsError::new(ErrorKind::ShiftOverflow, Site::Expr(*id))),
            }
        },
        DiscExpr::Other { id } => Err(FlagsError::new(ErrorKind::UnsupportedExpr, Site::Expr(*id))),
    }
}

} // verus!
