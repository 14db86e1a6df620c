use scs::metering::{
    add_metering_ext, free_metered_contract, metered_contract, MeteringAttempt, RawBuffer,
};

#[test]
fn null_is_all_zero() {
    let null = metered_contract::null();
    assert_eq!(null.data, 0);
    assert_eq!(null.len, 0);
    assert_eq!(null.capacity, 0);
    assert!(null.is_null());
}

#[test]
fn null_input_gives_the_null_result() {
    assert_eq!(add_metering_ext(MeteringAttempt::NullInput), metered_contract::null());
}

#[test]
fn an_abort_gives_the_null_result() {
    assert_eq!(add_metering_ext(MeteringAttempt::Aborted), metered_contract::null());
}

#[test]
fn no_result_gives_the_null_result() {
    assert_eq!(add_metering_ext(MeteringAttempt::NoResult), metered_contract::null());
}

#[test]
fn a_metered_module_is_handed_over() {
    let buffer = RawBuffer { data: 0x1000, len: 10, capacity: 16 };
    let out = add_metering_ext(MeteringAttempt::Metered(buffer));
    assert_eq!(out, metered_contract { data: 0x1000, len: 10, capacity: 16 });
    assert!(!out.is_null());
}

#[test]
fn the_largest_capacity_that_fits_is_handed_over() {
    let buffer = RawBuffer { data: 8, len: 0xffff_ffff, capacity: 0xffff_ffff };
    let out = add_metering_ext(MeteringAttempt::Metered(buffer));
    assert_eq!(out, metered_contract { data: 8, len: u32::MAX, capacity: u32::MAX });
}

#[test]
fn a_capacity_beyond_32_bits_gives_the_null_result() {
    if usize::BITS > 32 {
        let capacity = (u32::MAX as usize) + 1;
        let buffer = RawBuffer { data: 8, len: 3, capacity };
        assert_eq!(add_metering_ext(MeteringAttempt::Metered(buffer)), metered_contract::null());
    }
}

#[test]
fn releasing_null_does_nothing() {
    assert_eq!(free_metered_contract(metered_contract::null()), None);
    assert_eq!(free_metered_contract(metered_contract { data: 0, len: 4, capacity: 8 }), None);
}

#[test]
fn releasing_a_result_gives_back_its_buffer() {
    let buffer = RawBuffer { data: 0x2000, len: 5, capacity: 64 };
    let out = add_metering_ext(MeteringAttempt::Metered(buffer));
    assert_eq!(free_metered_contract(out), Some(buffer));
}
