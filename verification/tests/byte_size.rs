use cloud_backup::byte_size::{parse_byte_size, ByteSizeError};

#[test]
fn binary_units_count_in_steps_of_1024() {
    assert_eq!(parse_byte_size("1.50 GiB"), Ok(1_610_612_736));
    assert_eq!(parse_byte_size("1 KiB"), Ok(1024));
    assert_eq!(parse_byte_size("2MiB"), Ok(2 * 1024 * 1024));
    assert_eq!(parse_byte_size("1TiB"), Ok(1_099_511_627_776));
}

#[test]
fn decimal_units_count_in_steps_of_1000() {
    assert_eq!(parse_byte_size("500MB"), Ok(500_000_000));
    assert_eq!(parse_byte_size("1.5 KB"), Ok(1500));
    assert_eq!(parse_byte_size("3 GB"), Ok(3_000_000_000));
    assert_eq!(parse_byte_size("2TB"), Ok(2_000_000_000_000));
}

#[test]
fn plain_bytes_are_whole_numbers() {
    assert_eq!(parse_byte_size("42B"), Ok(42));
    assert_eq!(parse_byte_size("66 B"), Ok(66));
    assert_eq!(parse_byte_size("1,024"), Ok(1024));
    assert_eq!(parse_byte_size("1.5B"), Err(ByteSizeError::InvalidNumber));
    assert_eq!(parse_byte_size("18446744073709551615"), Ok(u64::MAX));
    assert_eq!(parse_byte_size("18446744073709551616"), Err(ByteSizeError::TooLarge));
}

#[test]
fn separators_are_ignored() {
    assert_eq!(parse_byte_size("1,234.5 KiB"), Ok(1_264_128));
    assert_eq!(parse_byte_size(" 1 0 MB "), Ok(10_000_000));
}

#[test]
fn fractions_round_down() {
    assert_eq!(parse_byte_size("0.0009 KB"), Ok(0));
    assert_eq!(parse_byte_size("0.001 KB"), Ok(1));
    assert_eq!(parse_byte_size("0.29 KB"), Ok(290));
    assert_eq!(parse_byte_size("1.9999999999999999999999 KiB"), Ok(2047));
    assert_eq!(parse_byte_size(".5 KiB"), Ok(512));
    assert_eq!(parse_byte_size("5. KiB"), Ok(5120));
}

#[test]
fn malformed_sizes_are_refused() {
    assert_eq!(parse_byte_size(""), Err(ByteSizeError::NoNumber));
    assert_eq!(parse_byte_size("KiB"), Err(ByteSizeError::NoNumber));
    assert_eq!(parse_byte_size("B"), Err(ByteSizeError::NoNumber));
    assert_eq!(parse_byte_size(". MB"), Err(ByteSizeError::InvalidNumber));
    assert_eq!(parse_byte_size("1.2.3 MB"), Err(ByteSizeError::InvalidNumber));
    assert_eq!(parse_byte_size("abc"), Err(ByteSizeError::InvalidNumber));
    assert_eq!(parse_byte_size("-5 KB"), Err(ByteSizeError::InvalidNumber));
}

#[test]
fn large_scaled_sizes_are_held_at_the_maximum() {
    assert_eq!(parse_byte_size("99999999999 TiB"), Ok(u64::MAX));
    assert_eq!(parse_byte_size("99999999999999999999999999 KB"), Ok(u64::MAX));
}
