use layered_config::merge::{fold_layers, merge_with_fallback, mergeable};
use layered_config::partial::{PartialField, PartialValue, Slot};
use layered_config::value::Value;

fn num(name: &str, n: i128) -> PartialField {
    PartialField { name: name.to_string(), slot: Slot::Leaf(Value::Integer(n)) }
}

fn none(name: &str) -> PartialField {
    PartialField { name: name.to_string(), slot: Slot::Absent }
}

fn sub(name: &str, fields: Vec<PartialField>) -> PartialField {
    PartialField { name: name.to_string(), slot: Slot::Nested(PartialValue { fields }) }
}

fn tree(fields: Vec<PartialField>) -> PartialValue {
    PartialValue { fields }
}

#[test]
fn primary_leaf_is_never_overridden() {
    let primary = tree(vec![num("a", 1), none("b"), none("c")]);
    let fallback = tree(vec![num("a", 10), num("b", 20), none("c")]);
    assert!(mergeable(&primary, &fallback));
    assert_eq!(
        merge_with_fallback(&primary, &fallback),
        tree(vec![num("a", 1), num("b", 20), none("c")])
    );
}

#[test]
fn nested_fields_merge_leaf_by_leaf() {
    let primary = tree(vec![sub("n", vec![num("x", 1), none("y")]), none("z")]);
    let fallback = tree(vec![sub("n", vec![num("x", 2), num("y", 3)]), num("z", 4)]);
    assert_eq!(
        merge_with_fallback(&primary, &fallback),
        tree(vec![sub("n", vec![num("x", 1), num("y", 3)]), num("z", 4)])
    );
}

#[test]
fn absent_nested_field_takes_the_other_side() {
    let with = tree(vec![sub("n", vec![num("x", 1)])]);
    let without = tree(vec![none("n")]);
    assert!(mergeable(&with, &without));
    assert!(mergeable(&without, &with));
    assert_eq!(merge_with_fallback(&with, &without), with);
    assert_eq!(merge_with_fallback(&without, &with), with);
}

#[test]
fn values_of_different_shape_are_not_mergeable() {
    let a = tree(vec![num("a", 1)]);
    assert!(!mergeable(&a, &tree(vec![])));
    assert!(!mergeable(&a, &tree(vec![num("b", 1)])));
    assert!(!mergeable(&a, &tree(vec![sub("a", vec![])])));
    assert!(!mergeable(&tree(vec![sub("a", vec![])]), &a));
    assert!(!mergeable(
        &tree(vec![sub("a", vec![num("x", 1)])]),
        &tree(vec![sub("a", vec![num("y", 1)])])
    ));
    assert!(mergeable(&a, &tree(vec![none("a")])));
}

#[test]
fn folding_three_layers_is_independent_of_grouping() {
    let a = tree(vec![num("p", 1), none("q"), none("r"), sub("s", vec![none("t"), none("u")])]);
    let b = tree(vec![num("p", 2), num("q", 2), none("r"), sub("s", vec![num("t", 2), none("u")])]);
    let c = tree(vec![num("p", 3), num("q", 3), num("r", 3), sub("s", vec![num("t", 3), num("u", 3)])]);
    let expected =
        tree(vec![num("p", 1), num("q", 2), num("r", 3), sub("s", vec![num("t", 2), num("u", 3)])]);
    let folded = fold_layers(&vec![a.clone(), b.clone(), c.clone()]);
    assert_eq!(folded, expected);
    assert_eq!(fold_layers(&vec![a.clone(), b.clone(), c.clone()]), folded);
    let right = merge_with_fallback(&a, &merge_with_fallback(&b, &c));
    let left = merge_with_fallback(&merge_with_fallback(&a, &b), &c);
    assert_eq!(right, expected);
    assert_eq!(left, expected);
}

#[test]
fn folding_one_layer_gives_that_layer() {
    let a = tree(vec![num("p", 1), none("q")]);
    assert_eq!(fold_layers(&vec![a.clone()]), a);
}

#[test]
fn order_of_layers_matters() {
    let a = tree(vec![num("p", 1)]);
    let b = tree(vec![num("p", 2)]);
    assert_eq!(fold_layers(&vec![a.clone(), b.clone()]), a);
    assert_eq!(fold_layers(&vec![b.clone(), a.clone()]), b);
}
