use lambert::factorial;

#[test]
fn fact() {
    assert_eq!(lambert::factorial(5), 120);
}

#[test]
fn factorial_exact_values() {
    assert_eq!(factorial(0), 1);
    assert_eq!(factorial(1), 1);
    assert_eq!(factorial(2), 2);
    assert_eq!(factorial(3), 6);
    assert_eq!(factorial(10), 3628800);
    assert_eq!(factorial(11), 39916800);
    assert_eq!(factorial(20), 2432902008176640000);
}
