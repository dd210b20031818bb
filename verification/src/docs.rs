use vstd::prelude::*;
use vstd::string::StringExecFns;

verus! {

/// The doc of the generated enum.
pub open spec fn enum_doc_text(s: Seq<char>, e: Seq<char>, v0: Seq<char>, v1: Seq<char>) -> Seq<char> {
    "Bitflag variants for [`"@
        + s
        + "`].\n\nEach variant represents a single power-of-two bit. Combine variants with `|` to get a [`"@
        + s
        + "`], or use [`"@
        + e
        + "::flags()`] (empty) and [`"@
        + e
        + "::all()`] (every bit set) as starting points.\n\n# Examples\n\n```rust,ignore\nlet f = "@
        + e
        + "::"@
        + v0
        + " | "@
        + e
        + "::"@
        + v1
        + ";\nassert!(f.contains("@
        + e
        + "::"@
        + v0
        + "));\n\nlet all = "@
        + e
        + "::all();\nassert!(all.contains("@
        + e
        + "::"@
        + v0
        + "));\n```"@
}

/// Writes the doc of the generated enum.
pub fn enum_doc(s: &str, e: &str, v0: &str, v1: &str) -> (r: String)
    ensures
        r@ == enum_doc_text(s@, e@, v0@, v1@),
{
    let mut r = String::from_str("Bitflag variants for [`");
    r.append(s);
    r.append("`].\n\nEach variant represents a single power-of-two bit. Combine variants with `|` to get a [`");
    r.append(s);
    r.append("`], or use [`");
    r.append(e);
    r.append("::flags()`] (empty) and [`");
    r.append(e);
    r.append("::all()`] (every bit set) as starting points.\n\n# Examples\n\n```rust,ignore\nlet f = ");
    r.append(e);
    r.append("::");
    r.append(v0);
    r.append(" | ");
    r.append(e);
    r.append("::");
    r.append(v1);
    r.append(";\nassert!(f.contains(");
    r.append(e);
    r.append("::");
    r.append(v0);
    r.append("));\n\nlet all = ");
    r.append(e);
    r.append("::all();\nassert!(all.contains(");
    r.append(e);
    r.append("::");
    r.append(v0);
    r.append("));\n```");
    r
}

/// The doc of the enum's `flags()`.
pub open spec fn flags_fn_doc_text(s: Seq<char>) -> Seq<char> {
    "Returns an empty [`"@
        + s
        + "`] with no bits set.\n\nShorthand for [`"@
        + s
        + "::empty()`]."@
}

/// Writes the doc of the enum's `flags()`.
pub fn flags_fn_doc(s: &str) -> (r: String)
    ensures
        r@ == flags_fn_doc_text(s@),
{
    let mut r = String::from_str("Returns an empty [`");
    r.append(s);
    r.append("`] with no bits set.\n\nShorthand for [`");
    r.append(s);
    r.append("::empty()`].");
    r
}

/// The doc of the enum's `all()`.
pub open spec fn all_fn_doc_text(s: Seq<char>) -> Seq<char> {
    "Returns a [`"@
        + s
        + "`] with every variant's bit set.\n\nShorthand for [`"@
        + s
        + "::all()`]."@
}

/// Writes the doc of the enum's `all()`.
pub fn all_fn_doc(s: &str) -> (r: String)
    ensures
        r@ == all_fn_doc_text(s@),
{
    let mut r = String::from_str("Returns a [`");
    r.append(s);
    r.append("`] with every variant's bit set.\n\nShorthand for [`");
    r.append(s);
    r.append("::all()`].");
    r
}

/// The doc of the enum's `union()`.
pub open spec fn union_fn_doc_text(s: Seq<char>) -> Seq<char> {
    "Returns a [`"@
        + s
        + "`] with `self` and `flag` both set.\n\nConst-compatible way to combine two variants without the `|` operator."@
}

/// Writes the doc of the enum's `union()`.
pub fn union_fn_doc(s: &str) -> (r: String)
    ensures
        r@ == union_fn_doc_text(s@),
{
    let mut r = String::from_str("Returns a [`");
    r.append(s);
    r.append("`] with `self` and `flag` both set.\n\nConst-compatible way to combine two variants without the `|` operator.");
    r
}

/// The doc of the generated flag set.
pub open spec fn struct_doc_text(s: Seq<char>, e: Seq<char>, t: Seq<char>, v0: Seq<char>, v1: Seq<char>) -> Seq<char> {
    "A set of [`"@
        + e
        + "`] flags backed by a `"@
        + t
        + "` integer.\n\nConstruct with [`"@
        + s
        + "::empty()`], [`"@
        + s
        + "::all()`], [`"@
        + s
        + "::from_flag()`], [`"@
        + s
        + "::from_bits()`], or the `|` operator on [`"@
        + e
        + "`] variants. Unknown bits are always masked out.\n\n# Examples\n\n```rust,ignore\n// Build from variants\nlet f = "@
        + e
        + "::"@
        + v0
        + " | "@
        + e
        + "::"@
        + v1
        + ";\nlet f = "@
        + s
        + "::from_flag("@
        + e
        + "::"@
        + v0
        + ");\n\n// Test\nassert!(f.contains("@
        + e
        + "::"@
        + v0
        + "));\nassert!(f.contains("@
        + e
        + "::"@
        + v0
        + " | "@
        + e
        + "::"@
        + v1
        + "));\nassert!(f.contains_any("@
        + e
        + "::"@
        + v0
        + " | "@
        + e
        + "::"@
        + v1
        + "));\nassert!(!f.is_empty());\n```"@
}

/// Writes the doc of the generated flag set.
pub fn struct_doc(s: &str, e: &str, t: &str, v0: &str, v1: &str) -> (r: String)
    ensures
        r@ == struct_doc_text(s@, e@, t@, v0@, v1@),
{
    let mut r = String::from_str("A set of [`");
    r.append(e);
    r.append("`] flags backed by a `");
    r.append(t);
    r.append("` integer.\n\nConstruct with [`");
    r.append(s);
    r.append("::empty()`], [`");
    r.append(s);
    r.append("::all()`], [`");
    r.append(s);
    r.append("::from_flag()`], [`");
    r.append(s);
    r.append("::from_bits()`], or the `|` operator on [`");
    r.append(e);
    r.append("`] variants. Unknown bits are always masked out.\n\n# Examples\n\n```rust,ignore\n// Build from variants\nlet f = ");
    r.append(e);
    r.append("::");
    r.append(v0);
    r.append(" | ");
    r.append(e);
    r.append("::");
    r.append(v1);
    r.append(";\nlet f = ");
    r.append(s);
    r.append("::from_flag(");
    r.append(e);
    r.append("::");
    r.append(v0);
    r.append(");\n\n// Test\nassert!(f.contains(");
    r.append(e);
    r.append("::");
    r.append(v0);
    r.append("));\nassert!(f.contains(");
    r.append(e);
    r.append("::");
    r.append(v0);
    r.append(" | ");
    r.append(e);
    r.append("::");
    r.append(v1);
    r.append("));\nassert!(f.contains_any(");
    r.append(e);
    r.append("::");
    r.append(v0);
    r.append(" | ");
    r.append(e);
    r.append("::");
    r.append(v1);
    r.append("));\nassert!(!f.is_empty());\n```");
    r
}

} // verus!
