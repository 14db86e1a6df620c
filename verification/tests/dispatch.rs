use scs::dispatch::{copy_slice, export_symbol, method_id};
use sha2::{Digest, Sha256};

#[test]
fn method_id_of_foo() {
    assert_eq!(method_id("foo"), 1806968364);
    assert_eq!(method_id("foo"), 0x6bb4262c);
}

#[test]
fn method_id_of_the_empty_name() {
    assert_eq!(method_id(""), 1120186595);
}

#[test]
fn method_id_can_be_negative() {
    assert_eq!(method_id("abc"), -1089046342);
    assert_eq!(method_id("transfer"), -898173657);
}

#[test]
fn method_id_hashes_the_utf8_bytes() {
    assert_eq!(method_id("h\u{e9}llo"), 492390460);
}

#[test]
fn method_id_is_the_little_endian_prefix_of_the_digest() {
    for name in ["foo", "noret_args", "ret_args", "ret_noargs", "noret_noargs", "test_log"] {
        let digest = Sha256::digest(name.as_bytes());
        let expected = i32::from_le_bytes([digest[0], digest[1], digest[2], digest[3]]);
        assert_eq!(method_id(name), expected);
    }
}

#[test]
fn export_symbol_of_foo() {
    assert_eq!(export_symbol("foo"), "pub2C26B46B");
}

#[test]
fn export_symbol_keeps_leading_zeros_and_upper_case() {
    assert_eq!(export_symbol("ret_args"), "pub0313DB09");
    assert_eq!(export_symbol("ret_noargs"), "pub0EA15E79");
    assert_eq!(export_symbol(""), "pubE3B0C442");
    assert_eq!(export_symbol("abc"), "pubBA7816BF");
}

#[test]
fn export_symbol_spells_the_bytes_of_the_method_id() {
    for name in ["foo", "abc", "transfer", "noret_noargs", ""] {
        let bytes = method_id(name).to_le_bytes();
        let expected = format!(
            "pub{:02X}{:02X}{:02X}{:02X}",
            bytes[0], bytes[1], bytes[2], bytes[3]
        );
        assert_eq!(export_symbol(name), expected);
    }
}

#[test]
fn the_same_name_gives_the_same_identifier() {
    assert_eq!(method_id("transfer"), method_id("transfer"));
    assert_eq!(export_symbol("transfer"), export_symbol("transfer"));
    assert_ne!(method_id("transfer"), method_id("transfer "));
    assert_ne!(export_symbol("transfer"), export_symbol("Transfer"));
}

#[test]
fn copy_slice_takes_the_first_four_bytes() {
    assert_eq!(copy_slice(&[1, 2, 3, 4]), [1, 2, 3, 4]);
    assert_eq!(copy_slice(&[9, 8, 7, 6, 5, 4]), [9, 8, 7, 6]);
}
