use rofi_mode::convert::{is_c_str, saturating_c_int, saturating_c_uint};

#[test]
fn c_int_saturates() {
    assert_eq!(saturating_c_int(0), 0);
    assert_eq!(saturating_c_int(48), 48);
    assert_eq!(saturating_c_int(u32::MAX), i32::MAX);
    assert_eq!(saturating_c_int(1 << 31), i32::MAX);
}

#[test]
fn c_uint_saturates() {
    assert_eq!(saturating_c_uint(7), 7);
    assert_eq!(saturating_c_uint(u32::MAX as usize), u32::MAX);
    assert_eq!(saturating_c_uint(usize::MAX), u32::MAX);
}

#[test]
fn c_str_checks() {
    assert!(is_c_str("an-example-mode\0"));
    assert!(is_c_str("\0"));
    assert!(!is_c_str(""));
    assert!(!is_c_str("no terminator"));
    assert!(!is_c_str("inner\0nul\0"));
}
