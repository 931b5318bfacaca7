use zj_radar_pipe::decimal::decimal_text;

#[test]
fn decimal_text_of_small_and_large_numbers() {
    assert_eq!(decimal_text(0), "0");
    assert_eq!(decimal_text(9), "9");
    assert_eq!(decimal_text(10), "10");
    assert_eq!(decimal_text(1002003), "1002003");
    assert_eq!(decimal_text(u64::MAX), "18446744073709551615");
}

#[test]
fn decimal_text_reads_back() {
    for n in [0u64, 1, 5, 59, 60, 100, 4294967296, u64::MAX - 1] {
        assert_eq!(decimal_text(n).parse::<u64>().unwrap(), n);
        assert_eq!(decimal_text(n), n.to_string());
    }
}

#[test]
fn decimal_text_is_digits_without_leading_zeros() {
    for n in [1u64, 7, 10, 305, 1000] {
        let text = decimal_text(n);
        assert!(text.chars().all(|c| c.is_ascii_digit()));
        assert!(!text.starts_with('0'));
    }
}
