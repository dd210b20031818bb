use flaglet::flagset::{Flag, FlagSet};

const ALL: u64 = 0b1011;

fn flag(bit: u64) -> Flag<ALL> {
    Flag::new(bit).unwrap()
}

#[test]
fn new_accepts_only_single_bits_within_the_mask() {
    assert!(Flag::<ALL>::new(0b1000).is_some());
    assert!(Flag::<ALL>::new(0b0100).is_none());
    assert!(Flag::<ALL>::new(0b0011).is_none());
    assert!(Flag::<ALL>::new(0).is_none());
    assert_eq!(u64::from(flag(0b10)), 0b10);
}

#[test]
fn toggling_twice_restores() {
    let f = flag(1) | flag(8);
    let g = (f ^ flag(2)) ^ flag(2);
    assert_eq!(g.bits(), f.bits());
    let h = (f ^ f) ^ f;
    assert_eq!(h.bits(), f.bits());
}

#[test]
fn not_is_the_complement_within_the_mask() {
    let f = FlagSet::<ALL>::from_flag(flag(2));
    let g = !f;
    assert_eq!(g.bits(), 0b1001);
    assert_eq!((f | g).bits(), ALL);
    assert_eq!((f & g).bits(), 0);
    assert_eq!((!g).bits(), f.bits());
    assert_eq!((!FlagSet::<ALL>::empty()).bits(), ALL);
}

#[test]
fn from_bits_round_trips_and_masks() {
    let f = flag(1) | flag(2);
    assert_eq!(FlagSet::<ALL>::from_bits(f.bits()).bits(), f.bits());
    assert_eq!(FlagSet::<ALL>::from_bits(u64::MAX).bits(), ALL);
    assert_eq!(FlagSet::<ALL>::from(0b0110u64).bits(), 0b0010);
    assert_eq!(FlagSet::<ALL>::from(flag(8)).bits(), 8);
}

#[test]
fn is_all_and_is_empty() {
    assert!(Flag::<ALL>::all().is_all());
    assert!(!(flag(1) | flag(2)).is_all());
    assert!((flag(1) | flag(2) | flag(8)).is_all());
    assert!(Flag::<ALL>::flags().is_empty());
    assert!(!Flag::<ALL>::flags().is_all());
}

#[test]
fn unset_keeps_other_bits() {
    let mut f = Flag::<ALL>::all();
    f.unset(flag(1) | flag(8));
    assert_eq!(f.bits(), 0b0010);
    f.unset(flag(8));
    assert_eq!(f.bits(), 0b0010);
}

#[test]
fn set_keeps_what_was_there() {
    let mut f = FlagSet::<ALL>::from_flag(flag(2));
    f.set(flag(1) | flag(8));
    assert_eq!(f.bits(), ALL);
    f.set(flag(2));
    assert_eq!(f.bits(), ALL);
}

#[test]
fn contains_is_inclusion() {
    let f = flag(1) | flag(8);
    assert!(f.contains(flag(1)));
    assert!(f.contains(f));
    assert!(f.contains(FlagSet::<ALL>::empty()));
    assert!(!f.contains(flag(1) | flag(2)));
    assert!(f.contains_any(flag(1) | flag(2)));
    assert!(!f.contains_any(FlagSet::<ALL>::empty()));
    assert!(f.is_disjoint(FlagSet::<ALL>::empty()));
}

#[test]
fn equality_needs_exactly_the_variant() {
    let f = FlagSet::<ALL>::from_flag(flag(8));
    assert!(f == flag(8));
    assert!(flag(8) == f);
    assert!(f != flag(1));
    assert!(Flag::<ALL>::flags() != flag(1));
    assert!(flag(1) | flag(8) != flag(8));
}

#[test]
fn flag_operators_make_sets() {
    assert_eq!(flag(1).union(flag(2)).bits(), 0b11);
    assert_eq!((flag(1) & flag(2)).bits(), 0);
    assert_eq!((flag(1) & flag(1)).bits(), 1);
    assert_eq!((flag(1) ^ flag(1)).bits(), 0);
    assert_eq!((flag(1) ^ flag(8)).bits(), 0b1001);
}

#[test]
fn unset_undoes_set_of_new_flags() {
    let mut f = FlagSet::<ALL>::from_flag(flag(2));
    f.set(flag(1) | flag(8));
    f.unset(flag(1) | flag(8));
    assert_eq!(f.bits(), 2);
}

#[test]
fn raw_integers_stand_for_their_known_bits() {
    let mut f = FlagSet::<ALL>::from_flag(flag(1));
    assert!(f.contains(0b0001u64));
    assert!(f.contains(0b0101u64));
    assert!(!f.contains(0b0011u64));
    assert!(f.contains_any(0b0011u64));
    assert!(f.is_disjoint(0b0110u64));
    f.set(0b1110u64);
    assert_eq!(f.bits(), ALL);
    f.unset(0b0110u64);
    assert_eq!(f.bits(), 0b1001);
}

#[test]
fn from_matches_from_bits_and_from_flag() {
    assert_eq!(FlagSet::<ALL>::from(0b0111u64).bits(), FlagSet::<ALL>::from_bits(0b0111).bits());
    assert_eq!(FlagSet::<ALL>::from(flag(2)).bits(), FlagSet::<ALL>::from_flag(flag(2)).bits());
}
