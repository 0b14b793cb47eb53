use partial_config::{
    Accumulator, Any, Build, ConfigBuilder, Last, Monoid, Product, Run, Select, Selection,
    Semigroup, Sum,
};
use std::collections::HashSet;

#[test]
fn fresh_field_holds_the_identity() {
    let field: Select<Build, Product<i32>, i32> = Select::default();
    assert_eq!(field.get(), &Product(1));
    let field: Select<Build, Sum<i32>, i32> = Select::empty();
    assert_eq!(field.get(), &Sum(0));
}

#[test]
fn field_from_a_value_is_seeded_with_it() {
    let field: Select<Build, Sum<u8>, u8> = Select::from(5);
    assert_eq!(field.get(), &Sum(5));
    let field: Select<Build, Last<char>, Option<char>> = Select::from(Some('x'));
    assert_eq!(field.get(), &Last(Some('x')));
    let field: Select<Build, Last<char>, Option<char>> = Select::from(None);
    assert_eq!(field.get(), &Last(None));
    let field: Select<Run, Sum<u8>, u8> = Select::from(5);
    assert_eq!(field.value(), &5);
}

#[test]
fn fields_merge_their_accumulators() {
    let a: Select<Build, Product<u32>, u32> = 6.into();
    let b: Select<Build, Product<u32>, u32> = 7.into();
    assert_eq!(a.combine(b).get(), &Product(42));
}

#[test]
fn finalize_then_reopen_keeps_the_value() {
    let field: Select<Build, Sum<u64>, u64> = 11.into();
    let resolved: Select<Run, Sum<u64>, u64> = field.into();
    assert_eq!(resolved.value(), &11);
    let reopened: Select<Build, Sum<u64>, u64> = resolved.into();
    assert_eq!(reopened.get(), &Sum(11));
    let resolved = reopened.build();
    assert_eq!(resolved.get(), 11);
}

#[test]
fn take_leaves_the_default_value() {
    let mut field: Select<Run, Sum<u32>, u32> = Select::from(9);
    assert_eq!(field.take(), 9);
    assert_eq!(field.value(), &0);
    assert_eq!(field.take(), 0);

    let mut field: Select<Run, Last<String>, Option<String>> =
        Select::from(Some(String::from("out")));
    assert_eq!(field.take(), Some(String::from("out")));
    assert_eq!(field.get(), None);
}

#[test]
fn clone_keeps_phase_and_payload() {
    let field: Select<Build, Last<String>, Option<String>> =
        Select::from(Some(String::from("a")));
    let copy = field.clone();
    assert_eq!(copy.get(), field.get());
    let resolved: Select<Run, Sum<u8>, u8> = Select::from(3);
    let copy = resolved;
    assert_eq!(copy.get(), resolved.get());
}

#[test]
fn caller_supplied_mappings_flip_the_phase() {
    let field: Select<Build, Last<u8>, u8> = Select::default();
    let resolved = field.finalize_with(|m: Last<u8>| m.0.unwrap_or(7));
    assert_eq!(resolved.value(), &7);
    let reopened = resolved.reopen_with(|a: u8| Last(Some(a)));
    assert_eq!(reopened.get(), &Last(Some(7)));
    let resolved = reopened.finalize_with(|m: Last<u8>| m.0.unwrap_or(0));
    assert_eq!(resolved.get(), 7);
}

#[test]
fn accumulators_resolve_and_seed() {
    assert_eq!(Sum(4u8).resolve(), 4);
    assert_eq!(Sum::seed(4u8), Sum(4));
    assert_eq!(Product(4u8).resolve(), 4);
    assert_eq!(Product::seed(4u8), Product(4));
    assert_eq!(Any(true).resolve(), true);
    assert_eq!(Any::seed(false), Any(false));
    assert_eq!(Last(Some(1)).resolve(), Some(1));
    assert_eq!(Last::<u8>::seed(None), Last(None));
    assert_eq!(Sum::seed(Sum(250u8).resolve()), Sum(250));
    let mut files = HashSet::new();
    files.insert(3u16);
    assert_eq!(HashSet::seed(files.clone()).resolve(), files);
}

#[test]
fn set_field_accumulates_every_element() {
    let mut a = HashSet::new();
    a.insert(1u8);
    a.insert(2u8);
    let mut b = HashSet::new();
    b.insert(2u8);
    b.insert(3u8);
    let left: Select<Build, HashSet<u8>, HashSet<u8>> = a.into();
    let right: Select<Build, HashSet<u8>, HashSet<u8>> = b.into();
    let resolved = left.combine(right).build();
    let mut expected = HashSet::new();
    expected.insert(1u8);
    expected.insert(2u8);
    expected.insert(3u8);
    assert_eq!(resolved.get(), expected);
}

#[test]
fn default_payload_is_an_accumulator() {
    let payload: Selection<Any, bool> = Selection::default();
    assert!(matches!(payload, Selection::Build(Any(false))));
}

#[test]
fn accumulators_compare_with_plain_values() {
    assert_eq!(Sum(86), 86);
    assert!(Sum(3) < 4);
    assert!(Sum(5) > 4);
    assert_eq!(Product(50), 50);
    assert!(Product(3) <= 3);
    assert_eq!(Any::from(true), true);
    assert_eq!(Any::from(true) > true, false);
    assert!(Any(false) < true);
    assert!(Any(true) > false);
    assert!(Any(false) >= false);
    assert!(Sum(1) < Sum(2));
    assert_eq!(Last::from(5), Last(Some(5)));
}
