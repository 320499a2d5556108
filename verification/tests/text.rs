use vault_iam_auth::text::{decimal_string, join};

#[test]
fn decimal_of_zero_is_a_single_digit() {
    assert_eq!(decimal_string(0), "0");
}

#[test]
fn decimal_of_single_digits() {
    assert_eq!(decimal_string(7), "7");
    assert_eq!(decimal_string(9), "9");
}

#[test]
fn decimal_of_larger_numbers() {
    assert_eq!(decimal_string(10), "10");
    assert_eq!(decimal_string(43), "43");
    assert_eq!(decimal_string(8200), "8200");
    assert_eq!(decimal_string(65535), "65535");
    assert_eq!(decimal_string(1_000_000_007), "1000000007");
}

#[test]
fn decimal_agrees_with_the_standard_library() {
    for n in [0usize, 1, 9, 10, 11, 99, 100, 101, 999, 1000, 4096, 123_456_789, usize::MAX] {
        assert_eq!(decimal_string(n), format!("{}", n));
    }
}

#[test]
fn join_of_nothing_is_empty() {
    let parts: Vec<String> = Vec::new();
    assert_eq!(join(&parts, ", "), "");
}

#[test]
fn join_of_one_part_has_no_separator() {
    let parts = vec![String::from("only")];
    assert_eq!(join(&parts, ", "), "only");
}

#[test]
fn join_puts_the_separator_between_neighbours() {
    let parts = vec![String::from("a"), String::from("b"), String::from("c")];
    assert_eq!(join(&parts, ", "), "a, b, c");
    assert_eq!(join(&parts, ""), "abc");
}

#[test]
fn join_keeps_empty_parts() {
    let parts = vec![String::new(), String::from("x"), String::new()];
    assert_eq!(join(&parts, ","), ",x,");
}
