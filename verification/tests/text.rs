use deposits::text::render_i32;

#[test]
fn renders_zero() {
    assert_eq!(render_i32(0), "0");
}

#[test]
fn renders_single_and_many_digits() {
    assert_eq!(render_i32(7), "7");
    assert_eq!(render_i32(10), "10");
    assert_eq!(render_i32(1905), "1905");
}

#[test]
fn renders_negative_numbers() {
    assert_eq!(render_i32(-1), "-1");
    assert_eq!(render_i32(-120), "-120");
}

#[test]
fn renders_the_bounds() {
    assert_eq!(render_i32(i32::MAX), "2147483647");
    assert_eq!(render_i32(i32::MIN), "-2147483648");
}
