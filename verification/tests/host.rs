use scs::host::{log_generic_reprc, log_i32};
use scs::types::Address;

#[test]
fn log_i32_logs_four_little_endian_bytes() {
    assert_eq!(log_i32(&5), vec![5, 0, 0, 0]);
    assert_eq!(log_i32(&-1), vec![0xff, 0xff, 0xff, 0xff]);
    assert_eq!(log_i32(&0x0102_0304), vec![4, 3, 2, 1]);
}

#[test]
fn log_generic_logs_every_byte_of_the_value() {
    assert_eq!(log_generic_reprc(&0x0102_0304_0506_0708u64), vec![8, 7, 6, 5, 4, 3, 2, 1]);
    assert_eq!(log_generic_reprc(&7i32), vec![7, 0, 0, 0]);
    assert_eq!(log_generic_reprc(&()), Vec::<u8>::new());
    assert_eq!(log_generic_reprc(&Address::from_bytes([3; 32])), vec![3; 32]);
}
