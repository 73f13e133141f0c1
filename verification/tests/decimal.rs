use sysy_compiler::decimal::i32_to_string;

#[test]
fn decimal_of_zero() {
    assert_eq!(i32_to_string(0), "0");
}

#[test]
fn decimal_of_single_digits() {
    for n in 0..10 {
        assert_eq!(i32_to_string(n), n.to_string());
    }
}

#[test]
fn decimal_has_no_leading_zeros() {
    assert_eq!(i32_to_string(10), "10");
    assert_eq!(i32_to_string(100), "100");
    assert_eq!(i32_to_string(1000000), "1000000");
    assert_eq!(i32_to_string(1002003), "1002003");
}

#[test]
fn decimal_of_negative_numbers() {
    assert_eq!(i32_to_string(-1), "-1");
    assert_eq!(i32_to_string(-10), "-10");
    assert_eq!(i32_to_string(-987654321), "-987654321");
}

#[test]
fn decimal_of_the_extremes() {
    assert_eq!(i32_to_string(i32::MAX), "2147483647");
    assert_eq!(i32_to_string(i32::MIN), "-2147483648");
}

#[test]
fn decimal_agrees_with_the_standard_library() {
    let mut n: i32 = i32::MIN;
    loop {
        assert_eq!(i32_to_string(n), format!("{}", n));
        match n.checked_add(7_654_321) {
            Some(next) => n = next,
            None => break,
        }
    }
}

#[test]
fn decimal_reads_back() {
    for n in [0, 5, -5, 40, -40, 65535, -65536, i32::MAX, i32::MIN] {
        assert_eq!(i32_to_string(n).parse::<i32>().unwrap(), n);
    }
}
