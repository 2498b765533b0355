// The grammar tables.
use simple_scala::rules::{
    expansion_rule, first_modifier, first_scala, follow_packages, parsing_rule, EPSILON_CODE,
};

#[test]
fn test_rule_one_contains_first_scala() {
    assert!(parsing_rule(42, 5).is_some());
}

#[test]
fn test_rule_three_contains_follow_packages() {
    assert!(parsing_rule(43, 4).is_some());
}

#[test]
fn test_invalid_key_returns_none() {
    assert!(parsing_rule(69, 69).is_none());
}

#[test]
fn test_rule_1() {
    let expected: u8 = 43;
    let actual = expansion_rule(1).unwrap()[0];

    assert_eq!(expected, actual);
}

#[test]
fn test_rule_17() {
    let expected: u8 = vec![32, 51, 33][0];
    let actual: u8 = expansion_rule(17).unwrap()[0];

    assert_eq!(expected, actual);
}

#[test]
fn test_first_scala_contains_package() {
    let expected: bool = true;
    let package_code: u8 = 3;
    let actual: bool = first_scala(package_code);

    assert_eq!(expected, actual);
}

#[test]
fn test_first_modifier_contains_sealed() {
    let expected: bool = true;
    let sealed_code: u8 = 7;
    let actual: bool = first_modifier(sealed_code);

    assert_eq!(expected, actual);
}

#[test]
fn test_first_scala_contains_first_modifier() {
    let expected: bool = true;
    let sealed_code = 7;
    let actual: bool = first_scala(sealed_code);

    assert_eq!(expected, actual);
}

#[test]
fn test_follow_packages_contains_epsilon() {
    let expected: bool = true;
    let actual: bool = follow_packages(EPSILON_CODE);

    assert_eq!(expected, actual);
}
