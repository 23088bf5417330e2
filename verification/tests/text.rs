use refresh_cli::text::decimal_string;

#[test]
fn decimal_writes_small_numbers() {
    assert_eq!(decimal_string(0), "0");
    assert_eq!(decimal_string(7), "7");
    assert_eq!(decimal_string(9), "9");
    assert_eq!(decimal_string(10), "10");
    assert_eq!(decimal_string(130), "130");
    assert_eq!(decimal_string(1005), "1005");
}

#[test]
fn decimal_writes_negative_numbers() {
    assert_eq!(decimal_string(-1), "-1");
    assert_eq!(decimal_string(-10), "-10");
    assert_eq!(decimal_string(-909), "-909");
}

#[test]
fn decimal_writes_the_limits() {
    assert_eq!(decimal_string(i32::MAX), "2147483647");
    assert_eq!(decimal_string(i32::MIN), "-2147483648");
}

#[test]
fn decimal_agrees_with_the_standard_writing() {
    let mut i: i32 = -5000;
    while i <= 5000 {
        assert_eq!(decimal_string(i), i.to_string());
        i += 7;
    }
}
