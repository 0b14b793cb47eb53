use partial_config::{Last, Monoid, Semigroup, Sum};

#[test]
fn combine_with_into() {
    let x = Last::empty()
        .combine(53.into())
        .combine(None.into())
        .combine(42.into());

    assert_eq!(x.0, Some(42));
}

#[test]
fn sum_test() {
    let nums = vec![10, 24, 3, 7, 42];
    let sum = nums
        .into_iter()
        .fold(Sum::empty(), |acc, x| acc.combine(Sum::from(x)));

    assert_eq!(sum, 86);
}

#[test]
fn option_sum() {
    let sum = None
        .combine(Some(Sum::from(10)))
        .combine(None)
        .combine(Some(Sum::from(5)))
        .combine(Some(Sum::from(7)))
        .combine(None)
        .combine(Some(Sum::from(42)))
        .combine(None);

    assert_eq!(sum.unwrap(), 64);
}

#[test]
fn option_combine_macro() {
    let sum: Option<Sum<i32>> = None
        .combine(Sum::from(10).into())
        .combine(None.into())
        .combine(Sum::from(5).into())
        .combine(Sum::from(7).into())
        .combine(None.into())
        .combine(Sum::from(42).into())
        .combine(None.into());

    assert_eq!(sum.unwrap(), 64);
}

#[test]
fn combine_macro() {
    let x = Last::from(53)
        .combine(None.into())
        .combine(42.into())
        .combine(
            {
                let b = None;
                b
            }
            .into(),
        );

    assert_eq!(x.0, Some(42));
}

#[test]
fn last_to_option_conversion() {
    let last = Last::from(42);
    let res: Option<i32> = last.into();

    assert_eq!(res, Some(42));
}
