use math_explorer::pure_math::algebra;
use math_explorer::pure_math::number_theory;

#[test]
fn test_algebra_placeholder() {
    assert_eq!(algebra::placeholder_add(5, 3), 8);
}

#[test]
fn test_number_theory_placeholder() {
    assert!(number_theory::is_prime_placeholder(2));
    assert!(!number_theory::is_prime_placeholder(10));
}

#[test]
fn add_reaches_the_largest_u64() {
    assert_eq!(algebra::placeholder_add(u64::MAX - 1, 1), u64::MAX);
    assert_eq!(algebra::placeholder_add(0, 0), 0);
}

#[test]
fn only_two_passes_the_primality_stand_in() {
    assert!(!number_theory::is_prime_placeholder(0));
    assert!(!number_theory::is_prime_placeholder(1));
    assert!(!number_theory::is_prime_placeholder(3));
}
