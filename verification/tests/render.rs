use type_explorer::render::debug_hex_string;
use type_explorer::render::usize_to_decimal;

#[test]
fn debug_hex_empty() {
    assert_eq!(debug_hex_string(&[]), "[]");
}

#[test]
fn debug_hex_single_byte() {
    assert_eq!(debug_hex_string(&[0x00]), "[0]");
    assert_eq!(debug_hex_string(&[0x0F]), "[F]");
    assert_eq!(debug_hex_string(&[0x10]), "[10]");
    assert_eq!(debug_hex_string(&[0xFF]), "[FF]");
}

#[test]
fn debug_hex_uses_upper_case_and_order() {
    assert_eq!(debug_hex_string(&[0xDE, 0xAD, 0xBE, 0xEF]), "[DE, AD, BE, EF]");
    assert_eq!(debug_hex_string(&[0x00, 0x41]), "[0, 41]");
}

#[test]
fn decimal_rendering() {
    assert_eq!(usize_to_decimal(0), "0");
    assert_eq!(usize_to_decimal(9), "9");
    assert_eq!(usize_to_decimal(10), "10");
    assert_eq!(usize_to_decimal(905), "905");
    assert_eq!(usize_to_decimal(1000000), "1000000");
}
