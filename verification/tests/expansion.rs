use flaglet::error::{ErrorKind, FlagsError, Site};
use flaglet::expand::{choose_backing, expand, Backing, ItemBody, ItemInput, VariantInput};
use flaglet::expr::{eval_expr, literal_outcome, DiscExpr, LiteralError};

fn lit(text: &str, id: usize) -> DiscExpr {
    DiscExpr::Int { text: text.to_string(), id }
}

fn shl(left: DiscExpr, right: DiscExpr, id: usize) -> DiscExpr {
    DiscExpr::Shl { left: Box::new(left), right: Box::new(right), id }
}

fn variant(name: &str, discriminant: DiscExpr) -> VariantInput {
    VariantInput { name: name.to_string(), is_unit: true, discriminant: Some(discriminant) }
}

fn enum_item(name: &str, variants: Vec<VariantInput>) -> ItemInput {
    ItemInput { name: name.to_string(), body: ItemBody::Enum(variants) }
}

fn err(kind: ErrorKind, site: Site) -> FlagsError {
    FlagsError { kind, site }
}

#[test]
fn literals_in_every_radix() {
    assert_eq!(eval_expr(&lit("8", 0)), Ok(8));
    assert_eq!(eval_expr(&lit("0b0100", 0)), Ok(4));
    assert_eq!(eval_expr(&lit("0x80", 0)), Ok(128));
    assert_eq!(eval_expr(&lit("0o20", 0)), Ok(16));
    assert_eq!(eval_expr(&lit("1_024", 0)), Ok(1024));
    assert_eq!(eval_expr(&lit("2u8", 0)), Ok(2));
    assert_eq!(eval_expr(&lit("18446744073709551615", 0)), Ok(u64::MAX));
}

#[test]
fn literal_too_large_is_out_of_range() {
    assert_eq!(
        eval_expr(&lit("18446744073709551616", 7)),
        Err(err(ErrorKind::OutOfRange, Site::Expr(7)))
    );
}

#[test]
fn text_that_is_no_integer_literal_is_unsupported() {
    assert_eq!(eval_expr(&lit("1.5", 3)), Err(err(ErrorKind::UnsupportedExpr, Site::Expr(3))));
    assert_eq!(eval_expr(&lit("x", 3)), Err(err(ErrorKind::UnsupportedExpr, Site::Expr(3))));
}

#[test]
fn literal_outcome_maps_each_reading() {
    assert_eq!(literal_outcome(Ok(5), 1), Ok(5));
    assert_eq!(
        literal_outcome(Err(LiteralError::TooLarge), 1),
        Err(err(ErrorKind::OutOfRange, Site::Expr(1)))
    );
    assert_eq!(
        literal_outcome(Err(LiteralError::NotAnInteger), 1),
        Err(err(ErrorKind::UnsupportedExpr, Site::Expr(1)))
    );
}

#[test]
fn shifts() {
    assert_eq!(eval_expr(&shl(lit("1", 0), lit("3", 1), 2)), Ok(8));
    assert_eq!(eval_expr(&shl(lit("1", 0), lit("63", 1), 2)), Ok(1 << 63));
    assert_eq!(eval_expr(&shl(shl(lit("1", 0), lit("2", 1), 2), lit("3", 3), 4)), Ok(32));
}

#[test]
fn shift_past_the_top_overflows() {
    assert_eq!(
        eval_expr(&shl(lit("3", 0), lit("63", 1), 2)),
        Err(err(ErrorKind::ShiftOverflow, Site::Expr(2)))
    );
    assert_eq!(
        eval_expr(&shl(lit("2", 0), lit("63", 1), 2)),
        Err(err(ErrorKind::ShiftOverflow, Site::Expr(2)))
    );
    assert_eq!(
        eval_expr(&shl(shl(lit("1", 0), lit("63", 1), 2), lit("1", 3), 4)),
        Err(err(ErrorKind::ShiftOverflow, Site::Expr(4)))
    );
    assert_eq!(eval_expr(&shl(lit("3", 0), lit("62", 1), 2)), Ok(3 << 62));
    assert_eq!(eval_expr(&shl(lit("0", 0), lit("63", 1), 2)), Ok(0));
    assert_eq!(err(ErrorKind::ShiftOverflow, Site::Expr(0)).message(), "shift overflows u64");
}

#[test]
fn shift_of_64_or_more_is_refused_at_the_right_operand() {
    assert_eq!(
        eval_expr(&shl(lit("1", 0), lit("64", 1), 2)),
        Err(err(ErrorKind::ShiftTooWide, Site::Expr(1)))
    );
}

#[test]
fn left_operand_failure_comes_first() {
    assert_eq!(
        eval_expr(&shl(DiscExpr::Other { id: 0 }, lit("99999999999999999999", 1), 2)),
        Err(err(ErrorKind::UnsupportedExpr, Site::Expr(0)))
    );
}

#[test]
fn other_expressions_are_unsupported() {
    assert_eq!(
        eval_expr(&DiscExpr::Other { id: 9 }),
        Err(err(ErrorKind::UnsupportedExpr, Site::Expr(9)))
    );
}

#[test]
fn structs_and_unions_are_refused() {
    let item = ItemInput { name: "S".to_string(), body: ItemBody::Struct };
    assert_eq!(expand(&item, None).unwrap_err(), err(ErrorKind::NotAnEnum, Site::ItemName));
    let item = ItemInput { name: "U".to_string(), body: ItemBody::Union };
    assert_eq!(expand(&item, None).unwrap_err(), err(ErrorKind::NotAnEnum, Site::ItemName));
}

#[test]
fn variants_with_fields_are_refused() {
    let item = enum_item(
        "E",
        vec![
            variant("A", lit("1", 0)),
            VariantInput { name: "B".to_string(), is_unit: false, discriminant: None },
        ],
    );
    assert_eq!(expand(&item, None).unwrap_err(), err(ErrorKind::VariantHasFields, Site::Variant(1)));
}

#[test]
fn variants_without_discriminant_are_refused() {
    let item = enum_item(
        "E",
        vec![VariantInput { name: "A".to_string(), is_unit: true, discriminant: None }],
    );
    assert_eq!(
        expand(&item, None).unwrap_err(),
        err(ErrorKind::MissingDiscriminant, Site::Variant(0))
    );
}

#[test]
fn zero_and_non_powers_of_two_are_refused() {
    let item = enum_item("E", vec![variant("A", lit("1", 0)), variant("B", lit("3", 1))]);
    assert_eq!(expand(&item, None).unwrap_err(), err(ErrorKind::NotPowerOfTwo, Site::Expr(1)));
    let item = enum_item("E", vec![variant("A", lit("0", 4))]);
    assert_eq!(expand(&item, None).unwrap_err(), err(ErrorKind::NotPowerOfTwo, Site::Expr(4)));
    let item = enum_item("E", vec![variant("A", shl(lit("0", 0), lit("3", 1), 2))]);
    assert_eq!(expand(&item, None).unwrap_err(), err(ErrorKind::NotPowerOfTwo, Site::Expr(2)));
    let item = enum_item("E", vec![variant("A", shl(lit("3", 0), lit("63", 1), 2))]);
    assert_eq!(expand(&item, None).unwrap_err(), err(ErrorKind::ShiftOverflow, Site::Expr(2)));
}

#[test]
fn first_refusal_wins() {
    let item = enum_item(
        "E",
        vec![
            variant("A", lit("6", 0)),
            VariantInput { name: "B".to_string(), is_unit: false, discriminant: None },
        ],
    );
    assert_eq!(expand(&item, None).unwrap_err(), err(ErrorKind::NotPowerOfTwo, Site::Expr(0)));
}

#[test]
fn enums_without_variants_are_refused() {
    let item = enum_item("E", vec![]);
    assert_eq!(expand(&item, None).unwrap_err(), err(ErrorKind::NoVariants, Site::ItemName));
}

#[test]
fn messages() {
    assert_eq!(
        err(ErrorKind::NotAnEnum, Site::ItemName).message(),
        "#[flags] can only be applied to enums"
    );
    assert_eq!(
        err(ErrorKind::NotPowerOfTwo, Site::Expr(0)).message(),
        "discriminant must be a non-zero power of 2 (e.g. `1 << 3` or `0b0100`)"
    );
    assert_eq!(
        err(ErrorKind::ShiftTooWide, Site::Expr(0)).message(),
        "shift amount exceeds u64 bit width"
    );
}

#[test]
fn backing_is_the_narrowest_that_holds_the_largest_value() {
    assert_eq!(choose_backing(1), Backing::U8);
    assert_eq!(choose_backing(0x80), Backing::U8);
    assert_eq!(choose_backing(0x100), Backing::U16);
    assert_eq!(choose_backing(0x8000), Backing::U16);
    assert_eq!(choose_backing(0x1_0000), Backing::U32);
    assert_eq!(choose_backing(0x8000_0000), Backing::U32);
    assert_eq!(choose_backing(0x1_0000_0000), Backing::U64);
    assert_eq!(choose_backing(1 << 63), Backing::U64);
}

#[test]
fn expand_picks_the_backing_from_the_largest_variant() {
    let item = enum_item("E", vec![variant("A", shl(lit("1", 0), lit("20", 1), 2)), variant("B", lit("1", 3))]);
    let plan = expand(&item, None).unwrap();
    assert_eq!(plan.backing, Backing::U32);
    assert_eq!(plan.values, vec![1 << 20, 1]);
    assert_eq!(plan.all, (1 << 20) | 1);
    let plan = expand(&item, Some("u64".to_string())).unwrap();
    assert_eq!(plan.backing, Backing::Given("u64".to_string()));
}

#[test]
fn names_and_docs() {
    let item = enum_item(
        "Permissions",
        vec![variant("Read", lit("1", 0)), variant("Write", lit("2", 1)), variant("Execute", lit("4", 2))],
    );
    let plan = expand(&item, None).unwrap();
    assert_eq!(plan.enum_name, "Permissions");
    assert_eq!(plan.struct_name, "PermissionsFlags");
    assert_eq!(plan.backing.text(), "u8");
    assert_eq!(
        plan.docs.flags_fn_doc,
        "Returns an empty [`PermissionsFlags`] with no bits set.\n\nShorthand for [`PermissionsFlags::empty()`]."
    );
    assert_eq!(
        plan.docs.all_fn_doc,
        "Returns a [`PermissionsFlags`] with every variant's bit set.\n\nShorthand for [`PermissionsFlags::all()`]."
    );
    assert_eq!(
        plan.docs.union_fn_doc,
        "Returns a [`PermissionsFlags`] with `self` and `flag` both set.\n\nConst-compatible way to combine two variants without the `|` operator."
    );
    assert_eq!(
        plan.docs.enum_doc,
        "Bitflag variants for [`PermissionsFlags`].\n\n\
         Each variant represents a single power-of-two bit. Combine variants with `|` \
         to get a [`PermissionsFlags`], or use [`Permissions::flags()`] (empty) and \
         [`Permissions::all()`] (every bit set) as starting points.\n\n\
         # Examples\n\n\
         ```rust,ignore\n\
         let f = Permissions::Read | Permissions::Write;\n\
         assert!(f.contains(Permissions::Read));\n\n\
         let all = Permissions::all();\n\
         assert!(all.contains(Permissions::Read));\n\
         ```"
    );
    assert_eq!(
        plan.docs.struct_doc,
        "A set of [`Permissions`] flags backed by a `u8` integer.\n\n\
         Construct with [`PermissionsFlags::empty()`], [`PermissionsFlags::all()`], \
         [`PermissionsFlags::from_flag()`], [`PermissionsFlags::from_bits()`], \
         or the `|` operator on [`Permissions`] variants. \
         Unknown bits are always masked out.\n\n\
         # Examples\n\n\
         ```rust,ignore\n\
         // Build from variants\n\
         let f = Permissions::Read | Permissions::Write;\n\
         let f = PermissionsFlags::from_flag(Permissions::Read);\n\n\
         // Test\n\
         assert!(f.contains(Permissions::Read));\n\
         assert!(f.contains(Permissions::Read | Permissions::Write));\n\
         assert!(f.contains_any(Permissions::Read | Permissions::Write));\n\
         assert!(!f.is_empty());\n\
         ```"
    );
}

#[test]
fn single_variant_names_itself_twice_in_docs() {
    let item = enum_item("Foo", vec![variant("A", lit("1", 0))]);
    let plan = expand(&item, Some("u32".to_string())).unwrap();
    assert!(plan.docs.enum_doc.contains("let f = Foo::A | Foo::A;"));
    assert!(plan.docs.struct_doc.contains("backed by a `u32` integer"));
}

#[test]
fn raw_identifiers_lose_their_prefix_in_the_flag_set_name() {
    let item = enum_item("r#type", vec![variant("A", lit("1", 0))]);
    let plan = expand(&item, None).unwrap();
    assert_eq!(plan.enum_name, "r#type");
    assert_eq!(plan.struct_name, "typeFlags");
    assert!(plan.docs.enum_doc.contains("Bitflag variants for [`typeFlags`]"));
    assert!(plan.docs.enum_doc.contains("[`r#type::flags()`]"));
    assert_eq!(flaglet::expand::flags_struct_name("r"), "rFlags");
    assert_eq!(flaglet::expand::flags_struct_name("rust"), "rustFlags");
}

#[test]
fn plan_flags_need_the_plans_mask() {
    let item = enum_item("E", vec![variant("A", lit("1", 0)), variant("B", lit("4", 1))]);
    let plan = expand(&item, None).unwrap();
    assert!(plan.flag::<0b101>(0).is_some());
    assert_eq!(plan.flag::<0b101>(1).unwrap().bits(), 4);
    assert!(plan.flag::<0b101>(2).is_none());
    assert!(plan.flag::<0b111>(0).is_none());
}
