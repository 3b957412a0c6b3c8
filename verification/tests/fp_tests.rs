use fp_rust::fp;
use fp_rust::fp::{compose_two, contains, filter, foldl, foldr, reduce, reverse, Reduce};

#[test]
fn test_compose() {
    let add = |x| x + 2;
    let multiply = |x| x * 3;
    let divide = |x| x / 2;

    // Right to left: divide, then multiply, then add.
    let result = compose_two(compose_two(divide, multiply), add)(10);
    assert_eq!(17, result);
    println!("Composed FnOnce Result is {}", result);

    // Left to right: add, then multiply, then divide.
    let result = compose_two(compose_two(add, multiply), divide)(10);
    assert_eq!(18, result);
    println!("Piped FnOnce Result is {}", result);
}

#[test]
fn test_map_reduce_filter() {
    let result = compose_two(
        compose_two(
            |v: Vec<i32>| fp::map(|x| x * 2, v),
            |v: Vec<i32>| filter(|x: &i32| *x < 6, v),
        ),
        |v: Vec<i32>| reduce(|a, b| a * b, v),
    )(vec![1, 2, 3, 4]);
    assert_eq!(Some(8), result);
    println!("test_map_reduce_filter Result is {:?}", result);
}

#[test]
fn test_foldl_foldr() {
    let result = compose_two(
        compose_two(
            |v: Vec<i32>| fp::map(|x| x * 2, v),
            |v: Vec<i32>| filter(|x: &i32| *x < 6, v),
        ),
        |v: Vec<i32>| {
            foldl(
                |a, b| {
                    if a < 4 {
                        return a + b;
                    }
                    a
                },
                0,
                v,
            )
        },
    )(vec![1, 2, 3, 4]);
    assert_eq!(6, result);
    println!("foldl Result is {:?}", result);

    let result = compose_two(
        compose_two(
            |v: Vec<i32>| fp::map(|x| x * 2, v),
            |v: Vec<i32>| filter(|x: &i32| *x < 6, v),
        ),
        |v: Vec<i32>| {
            foldr(
                |a, b| {
                    if a < 4 {
                        return a + b;
                    }
                    a
                },
                0,
                v,
            )
        },
    )(vec![1, 2, 3, 4]);
    assert_eq!(4, result);
    println!("foldr Result is {:?}", result);
}

#[test]
fn test_contains() {
    let has_four = |v: Vec<i32>| contains(&4, v);
    assert_eq!(true, has_four(vec![1, 2, 3, 4]));
}

#[test]
fn test_reverse() {
    let rev = |v: Vec<i32>| reverse(v);
    assert_eq!(vec![4, 3, 2, 1], rev(vec![1, 2, 3, 4]));
}

#[test]
fn test_fp_fn_map() {
    assert_eq!(vec![2, 4, 6], fp::map(|x| x * 2, vec![1, 2, 3]));
    assert_eq!(
        vec![String::from("1"), String::from("2")],
        fp::map(|x: i32| x.to_string(), vec![1, 2])
    );
    assert_eq!(Vec::<i32>::new(), fp::map(|x: i32| x * 2, Vec::<i32>::new()));
}

#[test]
fn test_fp_fn_filter() {
    assert_eq!(vec![2, 4], filter(|x| *x % 2 == 0, vec![1, 2, 3, 4, 5]));
    assert_eq!(Vec::<i32>::new(), filter(|x| *x > 100, vec![1, 2, 3]));
    assert_eq!(vec![1, 2, 3], filter(|_| true, vec![1, 2, 3]));
}

#[test]
fn test_fp_fn_foldl() {
    assert_eq!(10, foldl(|acc, x| acc + x, 0, vec![1, 2, 3, 4]));
    // foldl is left-associative: (((""+"a")+"b")+"c")
    assert_eq!(
        String::from("abc"),
        foldl(|acc, x| acc + x, String::from(""), vec!["a", "b", "c"])
    );
    assert_eq!(42, foldl(|acc, x| acc + x, 42, Vec::<i32>::new()));
}

#[test]
fn test_fp_fn_foldr() {
    assert_eq!(10, foldr(|acc, x| acc + x, 0, vec![1, 2, 3, 4]));
    // foldr walks in reverse: (((""+"c")+"b")+"a")
    assert_eq!(
        String::from("cba"),
        foldr(|acc, x| acc + x, String::from(""), vec!["a", "b", "c"])
    );
    assert_eq!(42, foldr(|acc, x| acc + x, 42, Vec::<i32>::new()));
}

#[test]
fn test_fp_fn_reduce() {
    assert_eq!(Some(24), reduce(|a, b| a * b, vec![1, 2, 3, 4]));
    assert_eq!(Some(7), reduce(|a, b| a + b, vec![7]));
    assert_eq!(None, reduce(|a, b| a + b, Vec::<i32>::new()));
}

#[test]
fn test_fp_fn_reverse() {
    assert_eq!(vec![3, 2, 1], reverse(vec![1, 2, 3]));
    assert_eq!(vec![1], reverse(vec![1]));
    assert_eq!(Vec::<i32>::new(), reverse(Vec::<i32>::new()));
}

#[test]
fn test_fp_fn_contains() {
    assert_eq!(true, contains(&3, vec![1, 2, 3]));
    assert_eq!(false, contains(&9, vec![1, 2, 3]));
    assert_eq!(false, contains(&1, Vec::<i32>::new()));
}

#[test]
fn test_fp_compose_two() {
    let add_one = |x: i32| x + 1;
    let double = |x: i32| x * 2;
    // compose_two(f, g) == |x| g(f(x)); f runs first.
    let f = compose_two(add_one, double);
    assert_eq!(8, f(3));
}

#[test]
fn test_fp_reduce_trait() {
    assert_eq!(
        Some(10),
        Reduce::reduce(vec![1, 2, 3, 4].into_iter(), |a, b| a + b)
    );
    assert_eq!(
        None,
        Reduce::reduce(Vec::<i32>::new().into_iter(), |a, b| a + b)
    );
}

#[test]
fn test_fp_compose_pipe_are_mirror() {
    let add = |x: i32| x + 2;
    let multiply = |x: i32| x * 3;
    let divide = |x: i32| x / 2;

    // compose: divide -> multiply -> add
    assert_eq!(17, compose_two(compose_two(divide, multiply), add)(10));
    // pipe: add -> multiply -> divide
    assert_eq!(18, compose_two(compose_two(add, multiply), divide)(10));
}

#[test]
fn test_fp_macro_map_filter_curried() {
    let doubler = |v: Vec<i32>| fp::map(|x| x * 2, v);
    assert_eq!(vec![2, 4, 6], doubler(vec![1, 2, 3]));

    let evens = |v: Vec<i32>| filter(|x| *x % 2 == 0, v);
    assert_eq!(vec![2, 4], evens(vec![1, 2, 3, 4]));

    let product = |v: Vec<i32>| reduce(|a, b| a * b, v);
    assert_eq!(Some(24), product(vec![1, 2, 3, 4]));
}

#[test]
fn test_fp_macro_foldl_foldr_curried() {
    let sum_l = |v: Vec<i32>| foldl(|a, b| a + b, 0, v);
    assert_eq!(6, sum_l(vec![1, 2, 3]));

    let sum_r = |v: Vec<i32>| foldr(|a, b| a + b, 0, v);
    assert_eq!(6, sum_r(vec![1, 2, 3]));
}

#[test]
fn test_fp_macro_reverse_contains_curried() {
    let rev = |v: Vec<i32>| reverse(v);
    assert_eq!(vec![3, 2, 1], rev(vec![1, 2, 3]));

    let has_two = |v: Vec<i32>| contains(&2, v);
    assert_eq!(true, has_two(vec![1, 2, 3]));
    let has_two = |v: Vec<i32>| contains(&2, v);
    assert_eq!(false, has_two(vec![3, 4, 5]));
}

#[test]
fn test_fp_macro_empty_inputs() {
    let doubler = |v: Vec<i32>| fp::map(|x: i32| x * 2, v);
    assert_eq!(Vec::<i32>::new(), doubler(Vec::<i32>::new()));

    let product = |v: Vec<i32>| reduce(|a, b| a * b, v);
    assert_eq!(None, product(Vec::<i32>::new()));
}

#[test]
fn test_fp_map_reduce_filter_pipeline_strings() {
    let result = compose_two(
        compose_two(
            |v: Vec<i32>| filter(|x: &i32| *x % 2 == 1, v),
            |v: Vec<i32>| fp::map(|x: i32| x.to_string(), v),
        ),
        |v: Vec<String>| reduce(|a: String, b: String| a + &b, v),
    )(vec![1, 2, 3, 4, 5]);
    assert_eq!(Some(String::from("135")), result);
}

#[test]
fn test_fp_filter_keeps_order_and_drops_rejected() {
    // The kept elements come out in the order they had.
    assert_eq!(vec![5, 3, 1], filter(|x: &i32| *x % 2 == 1, vec![5, 4, 3, 2, 1]));
}

#[test]
fn test_fp_foldr_is_foldl_of_reverse() {
    let f = |acc: String, x: &str| acc + x;
    let v = vec!["x", "y", "z"];
    assert_eq!(foldl(f, String::new(), reverse(v.clone())), foldr(f, String::new(), v));
}

#[test]
fn test_fp_reverse_twice_is_identity() {
    let v = vec![3, 1, 4, 1, 5];
    assert_eq!(v.clone(), reverse(reverse(v)));
    assert_eq!(Vec::<i32>::new(), reverse(reverse(Vec::<i32>::new())));
}
