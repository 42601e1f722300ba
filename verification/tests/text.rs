use ghin::text::{decimal_string, truth_string};

#[test]
fn decimal_of_small_numbers() {
    assert_eq!(decimal_string(0), "0");
    assert_eq!(decimal_string(7), "7");
    assert_eq!(decimal_string(10), "10");
    assert_eq!(decimal_string(25), "25");
    assert_eq!(decimal_string(1001), "1001");
}

#[test]
fn decimal_of_negative_numbers() {
    assert_eq!(decimal_string(-1), "-1");
    assert_eq!(decimal_string(-90), "-90");
    assert_eq!(decimal_string(-12345), "-12345");
}

#[test]
fn decimal_of_the_ends_of_the_range() {
    assert_eq!(decimal_string(i32::MAX), "2147483647");
    assert_eq!(decimal_string(i32::MIN), "-2147483648");
    assert_eq!(decimal_string(i32::MIN + 1), "-2147483647");
}

#[test]
fn decimal_agrees_with_the_standard_library() {
    let samples = [0, 1, 9, 10, 11, 99, 100, 101, 4096, 65535, 1_000_000, 999_999_999, -5, -10, -100, -65536];
    for n in samples {
        assert_eq!(decimal_string(n), n.to_string());
    }
}

#[test]
fn truth_values_as_text() {
    assert_eq!(truth_string(true), "true");
    assert_eq!(truth_string(false), "false");
}
