use fp_rust::maybe::Maybe;
use std::cell::Cell;

#[test]
fn test_maybe_present() {
    assert_eq!(false, Maybe::just(None::<bool>).present());
    assert_eq!(true, Maybe::val(true).present());

    assert_eq!(true, Maybe::just(None::<bool>).null());
    assert_eq!(false, Maybe::val(true).null());

    let mut val;

    val = false;
    Maybe::just(None::<bool>).let_do(|x| val = *x);
    assert_eq!(false, val);

    val = false;
    Maybe::val(true).let_do(|x| val = *x);
    assert_eq!(true, val);
}

#[test]
fn test_maybe_flatmap() {
    assert_eq!(
        false,
        Maybe::val(true)
            .fmap(|x| return Maybe::val(!x.unwrap()))
            .unwrap()
    );
    assert_eq!(
        true,
        Maybe::val(false)
            .fmap(|x| return Maybe::val(!x.unwrap()))
            .unwrap()
    );

    assert_eq!(
        false,
        Maybe::val(true).map(|x| return Some(!x.unwrap())).unwrap()
    );
    assert_eq!(
        true,
        Maybe::val(false).map(|x| return Some(!x.unwrap())).unwrap()
    );

    assert_eq!(
        true,
        Maybe::val(1)
            .ap(&Maybe::val(|x: &Option<i16>| if x.unwrap() > 0 {
                return Some(true);
            } else {
                return Some(false);
            }))
            .unwrap()
    );
}

#[test]
fn test_maybe_unwrap() {
    assert_eq!(false, Maybe::just(None::<bool>).or(false));
    assert_eq!(true, Maybe::val(true).or(false));
    assert_eq!(true, Maybe::val(true).unwrap());

    assert_eq!(
        true,
        match Maybe::val(true).option() {
            None => false,
            Some(_x) => true,
        }
    );
    assert_eq!(
        false,
        match Maybe::just(None::<bool>).option() {
            None => false,
            Some(_x) => true,
        }
    );
}

#[test]
fn test_maybe_constructors() {
    assert_eq!(Some(5), Maybe::just(Some(5)).option());
    assert_eq!(Some(5), Maybe::of(Some(5)).option());
    assert_eq!(Some(5), Maybe::val(5).option());
    assert_eq!(None, Maybe::just(None::<i32>).option());
    assert_eq!(
        Maybe::just(Some(7)).option(),
        Maybe::of(Some(7)).option()
    );
}

#[test]
fn test_maybe_from_trait() {
    let m = Maybe::from(42);
    assert_eq!(true, m.present());
    assert_eq!(42, m.unwrap());

    let m2: Maybe<i32> = 99.into();
    assert_eq!(Some(99), m2.option());
}

#[test]
fn test_maybe_option_clones_inner() {
    let m = Maybe::val(String::from("hello"));
    assert_eq!(Some(String::from("hello")), m.option());
    assert_eq!(Some(String::from("hello")), m.option());
}

#[test]
fn test_maybe_or_unwrap_or_semantics() {
    assert_eq!(10, Maybe::just(None::<i32>).or(10));
    assert_eq!(3, Maybe::val(3).or(10));
}

#[test]
fn test_maybe_let_do_short_circuits_on_none() {
    let called = Cell::new(0);
    Maybe::just(None::<i32>).let_do(|_| called.set(called.get() + 1));
    assert_eq!(0, called.get());

    Maybe::val(7).let_do(|x| called.set(called.get() + *x));
    assert_eq!(7, called.get());
}

#[test]
fn test_maybe_map_bind_then_equivalent() {
    let mapped = Maybe::val(4).map(|x| Some(x.unwrap() * 2));
    let bound = Maybe::val(4).bind(|x| Some(x.unwrap() * 2));
    let thened = Maybe::val(4).then(|x| Some(x.unwrap() * 2));
    assert_eq!(Some(8), mapped.option());
    assert_eq!(Some(8), bound.option());
    assert_eq!(Some(8), thened.option());
}

#[test]
fn test_maybe_map_changes_type() {
    let m = Maybe::val(123).map(|x| Some(x.unwrap().to_string()));
    assert_eq!(Some(String::from("123")), m.option());
}

#[test]
fn test_maybe_map_can_produce_none() {
    let m = Maybe::val(5).map(|x| {
        if x.unwrap() > 10 {
            Some(x.unwrap())
        } else {
            None
        }
    });
    assert_eq!(true, m.null());
}

#[test]
fn test_maybe_chain_equals_fmap() {
    let via_fmap = Maybe::val(2).fmap(|x| Maybe::val(x.unwrap() + 1));
    let via_chain = Maybe::val(2).chain(|x| Maybe::val(x.unwrap() + 1));
    assert_eq!(via_fmap.option(), via_chain.option());
    assert_eq!(Some(3), via_chain.option());
}

#[test]
fn test_maybe_fmap_observes_none() {
    let m = Maybe::just(None::<i32>).fmap(|x| match x {
        Some(v) => Maybe::val(*v),
        None => Maybe::val(-1),
    });
    assert_eq!(Some(-1), m.option());
}

#[test]
fn test_maybe_ap_applies_wrapped_fn() {
    let value = Maybe::val(5);
    let wrapped_fn = Maybe::val(|x: &Option<i32>| Some(x.unwrap() * 10));
    let result = value.ap(&wrapped_fn);
    assert_eq!(Some(50), result.option());
}

#[test]
fn test_maybe_ap_none_function_yields_none() {
    let value = Maybe::val(5);
    let no_fn: Maybe<fn(&Option<i32>) -> Option<i32>> = Maybe::just(None);
    let result: Maybe<i32> = value.ap(&no_fn);
    assert_eq!(true, result.null());
    assert_eq!(None, result.option());
}

#[test]
fn test_maybe_present_null_are_opposite() {
    let some = Maybe::val(1);
    assert_eq!(true, some.present());
    assert_eq!(false, some.null());

    let none = Maybe::just(None::<i32>);
    assert_eq!(false, none.present());
    assert_eq!(true, none.null());
}

#[test]
fn test_maybe_chained_pipeline() {
    let result = Maybe::val(3)
        .map(|x| Some(x.unwrap() + 1))
        .fmap(|x| Maybe::val(x.unwrap() * 2))
        .map(|x| Some(x.unwrap().to_string()));
    assert_eq!(Some(String::from("8")), result.option());
}
