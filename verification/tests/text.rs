use turbopack_cli_dev::text::decimal;

#[test]
fn decimal_agrees_with_the_standard_library() {
    for n in [0, 1, 9, 10, 11, 99, 100, 1234567890, u64::MAX] {
        assert_eq!(decimal(n), n.to_string());
    }
}

#[test]
fn decimal_has_every_digit() {
    assert_eq!(decimal(1029384756), "1029384756");
}

#[test]
fn different_numbers_are_written_differently() {
    assert_ne!(decimal(1), decimal(10));
    assert_ne!(decimal(12), decimal(21));
}
