use partial_config::{Any, Last, Monoid, Product, Semigroup, Sum};

const OPTIONS: [Option<i32>; 4] = [None, Some(-3), Some(0), Some(42)];
const NUMBERS: [i32; 6] = [-7, -1, 0, 1, 10, 86];

#[test]
fn last_agrees_with_partial_functional() {
    for a in OPTIONS {
        for b in OPTIONS {
            let theirs = partial_functional::Semigroup::combine(
                partial_functional::Last(a),
                partial_functional::Last(b),
            );
            assert_eq!(Last(a).combine(Last(b)).0, theirs.0);
        }
    }
    let theirs: partial_functional::Last<i32> = partial_functional::Monoid::empty();
    assert_eq!(Last::<i32>::empty().0, theirs.0);
}

#[test]
fn sum_agrees_with_partial_functional() {
    for a in NUMBERS {
        for b in NUMBERS {
            let theirs = partial_functional::Semigroup::combine(
                partial_functional::Sum(a),
                partial_functional::Sum(b),
            );
            assert_eq!(Sum(a).combine(Sum(b)).0, theirs.0);
        }
    }
    let theirs: partial_functional::Sum<i32> = partial_functional::Monoid::empty();
    assert_eq!(Sum::<i32>::empty().0, theirs.0);
}

#[test]
fn product_agrees_with_partial_functional() {
    for a in NUMBERS {
        for b in NUMBERS {
            let theirs = partial_functional::Semigroup::combine(
                partial_functional::Product(a),
                partial_functional::Product(b),
            );
            assert_eq!(Product(a).combine(Product(b)).0, theirs.0);
        }
    }
    let theirs: partial_functional::Product<i32> = partial_functional::Monoid::empty();
    assert_eq!(Product::<i32>::empty().0, theirs.0);
}

#[test]
fn any_agrees_with_partial_functional() {
    for a in [false, true] {
        for b in [false, true] {
            let theirs = partial_functional::Semigroup::combine(
                partial_functional::Any(a),
                partial_functional::Any(b),
            );
            assert_eq!(Any(a).combine(Any(b)).0, theirs.0);
        }
    }
    let theirs: partial_functional::Any = partial_functional::Monoid::empty();
    assert_eq!(Any::empty().0, theirs.0);
}

#[test]
fn optional_sum_agrees_with_partial_functional() {
    for a in OPTIONS {
        for b in OPTIONS {
            let theirs = partial_functional::Semigroup::combine(
                a.map(partial_functional::Sum),
                b.map(partial_functional::Sum),
            );
            let ours = a.map(Sum).combine(b.map(Sum));
            assert_eq!(ours.map(|s| s.0), theirs.map(|s| s.0));
        }
    }
}
