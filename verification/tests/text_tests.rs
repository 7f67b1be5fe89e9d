use athena_editor::text::render_decimal;

#[test]
fn single_digits() {
    let expected = ["0", "1", "2", "3", "4", "5", "6", "7", "8", "9"];
    for (n, text) in expected.iter().enumerate() {
        assert_eq!(render_decimal(n), *text);
    }
}

#[test]
fn several_digits() {
    assert_eq!(render_decimal(10), "10");
    assert_eq!(render_decimal(99), "99");
    assert_eq!(render_decimal(100), "100");
    assert_eq!(render_decimal(407), "407");
    assert_eq!(render_decimal(1234567890), "1234567890");
}

#[test]
fn largest_number() {
    assert_eq!(render_decimal(usize::MAX), format!("{}", usize::MAX));
}

#[test]
fn agrees_with_the_standard_formatter() {
    let mut n: usize = 0;
    while n < 5000 {
        assert_eq!(render_decimal(n), format!("{}", n));
        n += 1;
    }
    let mut m: usize = 1;
    while m < usize::MAX / 7 {
        assert_eq!(render_decimal(m), format!("{}", m));
        assert_eq!(render_decimal(m - 1), format!("{}", m - 1));
        m *= 7;
    }
}
