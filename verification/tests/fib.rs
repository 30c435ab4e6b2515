use neo::fib::fib;

#[test]
fn fib_sanity_check() {
    let result = fib(6);
    assert_eq!(result, 8);
}

#[test]
fn fib_first_values() {
    assert_eq!(fib(1), 1);
    assert_eq!(fib(2), 1);
    assert_eq!(fib(3), 2);
    assert_eq!(fib(10), 55);
    assert_eq!(fib(30), 832_040);
}
