use isw_rs::numeric::{parse_numeric, parse_radix};
use isw_rs::text::{same_text, to_decimal};

#[test]
fn decimal_literals_are_read_in_base_ten() {
    assert_eq!(parse_numeric("0"), Some(0));
    assert_eq!(parse_numeric("7"), Some(7));
    assert_eq!(parse_numeric("128"), Some(128));
    assert_eq!(parse_numeric("0128"), Some(128));
    assert_eq!(parse_numeric("6699"), Some(6699));
    assert_eq!(parse_numeric("18446744073709551615"), Some(u64::MAX));
}

#[test]
fn prefixed_literals_are_read_in_base_sixteen() {
    assert_eq!(parse_numeric("0x1A2B"), Some(6699));
    assert_eq!(parse_numeric("0X1A2B"), Some(6699));
    assert_eq!(parse_numeric("0x1a2b"), Some(6699));
    assert_eq!(parse_numeric("0x0"), Some(0));
    assert_eq!(parse_numeric("0xef"), Some(239));
    assert_eq!(parse_numeric("0x10"), Some(16));
    assert_eq!(parse_numeric("0xFFFFFFFFFFFFFFFF"), Some(u64::MAX));
    assert_eq!(parse_numeric("0x00000000000000000010"), Some(16));
}

#[test]
fn the_prefix_decides_the_base() {
    assert_eq!(parse_numeric("10"), Some(10));
    assert_eq!(parse_numeric("0x10"), Some(16));
    assert_eq!(parse_numeric("010"), Some(10));
}

#[test]
fn values_that_are_no_literal_are_refused() {
    assert_eq!(parse_numeric(""), None);
    assert_eq!(parse_numeric("0x"), None);
    assert_eq!(parse_numeric("0X"), None);
    assert_eq!(parse_numeric("x10"), None);
    assert_eq!(parse_numeric("1A2B"), None);
    assert_eq!(parse_numeric("12ab"), None);
    assert_eq!(parse_numeric("0x1G"), None);
    assert_eq!(parse_numeric("120x5"), None);
    assert_eq!(parse_numeric("-1"), None);
    assert_eq!(parse_numeric("+1"), None);
    assert_eq!(parse_numeric("0x+1"), None);
    assert_eq!(parse_numeric(" 1"), None);
    assert_eq!(parse_numeric("1 "), None);
    assert_eq!(parse_numeric("1.5"), None);
    assert_eq!(parse_numeric("on"), None);
    assert_eq!(parse_numeric("\u{663}"), None);
}

#[test]
fn literals_beyond_sixty_four_bits_are_refused() {
    assert_eq!(parse_numeric("18446744073709551616"), None);
    assert_eq!(parse_numeric("99999999999999999999999"), None);
    assert_eq!(parse_numeric("0x10000000000000000"), None);
    assert_eq!(parse_numeric("0xFFFFFFFFFFFFFFFFF"), None);
    assert_eq!(parse_numeric("18446744073709551615x"), None);
}

#[test]
fn radix_parser_starts_where_it_is_told() {
    assert_eq!(parse_radix("ab12", 2, 10), Some(12));
    assert_eq!(parse_radix("ab12", 0, 16), Some(0xab12));
    assert_eq!(parse_radix("ab12", 0, 10), None);
    assert_eq!(parse_radix("12", 2, 10), None);
    assert_eq!(parse_radix("\u{e9}9", 1, 10), Some(9));
    assert_eq!(parse_radix("12", 3, 10), None);
    assert_eq!(parse_radix("", 0, 16), None);
}

#[test]
fn radix_parser_reads_any_base_up_to_sixteen() {
    assert_eq!(parse_radix("101", 0, 2), Some(5));
    assert_eq!(parse_radix("102", 0, 2), None);
    assert_eq!(parse_radix("777", 0, 8), Some(511));
    assert_eq!(parse_radix("778", 0, 8), None);
    assert_eq!(parse_radix("zz", 0, 16), None);
    assert_eq!(parse_radix("Ff", 0, 16), Some(255));
    assert_eq!(parse_radix("0", 0, 0), None);
    assert_eq!(parse_radix("000", 0, 1), Some(0));
    assert_eq!(parse_radix("1", 0, 1), None);
}

#[test]
fn numbers_are_rendered_in_decimal() {
    assert_eq!(to_decimal(0), "0");
    assert_eq!(to_decimal(9), "9");
    assert_eq!(to_decimal(10), "10");
    assert_eq!(to_decimal(6699), "6699");
    assert_eq!(to_decimal(1234567890), "1234567890");
    assert_eq!(to_decimal(u64::MAX), "18446744073709551615");
}

#[test]
fn rendering_and_reading_agree() {
    for n in [0u64, 1, 19, 20, 100, 255, 256, 65535, 478000, u64::MAX] {
        assert_eq!(parse_numeric(&to_decimal(n)), Some(n));
        assert_eq!(to_decimal(n), n.to_string());
    }
}

#[test]
fn texts_are_compared_by_their_characters() {
    assert!(same_text("", ""));
    assert!(same_text("cpu_temp", "cpu_temp"));
    assert!(!same_text("cpu_temp", "gpu_temp"));
    assert!(!same_text("cpu_temp", "cpu_tem"));
    assert!(!same_text("cpu_temp", "CPU_TEMP"));
    assert!(same_text("\u{e9}t\u{e9}", "\u{e9}t\u{e9}"));
    assert!(!same_text("\u{e9}", "e"));
}
