use webringer::text::decimal_text;

#[test]
fn decimal_text_of_identities() {
    assert_eq!(decimal_text(0), "0");
    assert_eq!(decimal_text(7), "7");
    assert_eq!(decimal_text(10), "10");
    assert_eq!(decimal_text(109), "109");
    assert_eq!(decimal_text(-1), "-1");
    assert_eq!(decimal_text(-120), "-120");
    assert_eq!(decimal_text(i64::MAX), "9223372036854775807");
    assert_eq!(decimal_text(i64::MIN), "-9223372036854775808");
}

#[test]
fn decimal_text_agrees_with_the_standard_library() {
    let mut n: i64 = -5000;
    while n <= 5000 {
        assert_eq!(decimal_text(n), n.to_string());
        n += 37;
    }
}
