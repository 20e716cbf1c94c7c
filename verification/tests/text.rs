use nux::text::{cat, cat3, decimal_i32, decimal_u64, join};

#[test]
fn decimal_of_small_and_large_numbers() {
    assert_eq!(decimal_u64(0), "0");
    assert_eq!(decimal_u64(7), "7");
    assert_eq!(decimal_u64(10), "10");
    assert_eq!(decimal_u64(4096), "4096");
    assert_eq!(decimal_u64(u64::MAX), "18446744073709551615");
}

#[test]
fn decimal_of_signed_numbers_matches_display() {
    for n in [0i32, 1, 9, 12, -1, -12, 4096, i32::MAX, i32::MIN] {
        assert_eq!(decimal_i32(n), n.to_string());
    }
    assert_eq!(decimal_i32(-2147483648), "-2147483648");
}

#[test]
fn join_puts_separator_between_parts_only() {
    let none: Vec<String> = vec![];
    assert_eq!(join(&none, " "), "");
    assert_eq!(join(&vec!["a".to_string()], " "), "a");
    assert_eq!(join(&vec!["a".to_string(), "bc".to_string(), "".to_string()], ", "), "a, bc, ");
}

#[test]
fn cat_concatenates() {
    assert_eq!(cat("/mnt", "/efi"), "/mnt/efi");
    assert_eq!(cat3("tank", "/", "home"), "tank/home");
    assert_eq!(cat("", ""), "");
}
